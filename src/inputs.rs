//! The input word and the allocator of bit fields inside it.
use vstd::prelude::*;

verus! {

/// Number of input lines carried by one raw word.
pub const INPUT_BITS: u8 = 16;

/// Number of field slots the allocator holds.
pub const MAX_FIELDS: usize = 16;

/// Errors raised while configuring or running the node.
#[derive(Debug, Clone, Copy, PartialEq, Eq, Structural)]
pub enum Error {
    /// A field would not fit in the input word, or every slot is taken.
    TooManyInputs,
    /// The transfer of the input word over the bus failed.
    BusError,
    /// The PWM channel was already handed out.
    ChannelInUse,
}

/// The width class of an input field.
#[derive(Debug, Clone, Copy, PartialEq, Eq, Structural)]
pub enum InputType {
    Single,
    Double,
    Triple,
}

impl InputType {
    pub open spec fn width(self) -> nat {
        match self {
            InputType::Single => 1,
            InputType::Double => 2,
            InputType::Triple => 3,
        }
    }

    /// Number of input lines in a field of this class.
    pub fn size(&self) -> (r: u8)
        ensures
            r == self.width(),
    {
        match self {
            InputType::Single => 1,
            InputType::Double => 2,
            InputType::Triple => 3,
        }
    }
}

/// Whether bit `pos` of `word` is set.
pub open spec fn bit_set(word: u16, pos: u16) -> bool {
    (word >> pos) & 1u16 == 1u16
}

/// Reads bit `pos` of `word` through a one-bit mask.
fn test_bit(word: u16, pos: u16) -> (r: bool)
    requires
        pos < 16,
    ensures
        r == bit_set(word, pos),
{
    proof {
        assert((word & (1u16 << pos) != 0u16) == ((word >> pos) & 1u16 == 1u16)) by (bit_vector)
            requires
                pos < 16,
        ;
    }
    word & (1u16 << pos) != 0
}


/// Where a field sits in the input word: its first bit and its width class.
#[derive(Debug, Clone, Copy, PartialEq, Eq, Structural)]
pub struct InputConfig {
    start_offset: u8,
    input_type: InputType,
}

impl InputConfig {
    pub closed spec fn offset(self) -> nat {
        self.start_offset as nat
    }

    pub closed spec fn kind(self) -> InputType {
        self.input_type
    }

    /// The field lies inside the input word.
    pub open spec fn wf(self) -> bool {
        self.offset() + self.kind().width() <= INPUT_BITS
    }

    pub fn start_offset(&self) -> (r: u8)
        ensures
            r == self.offset(),
    {
        self.start_offset
    }

    pub fn input_type(&self) -> (r: InputType)
        ensures
            r == self.kind(),
    {
        self.input_type
    }
}

/// The lines of one field, decoded from one snapshot of the input word.
#[derive(Debug, Clone, Copy, PartialEq, Eq, Structural)]
pub struct InputData {
    start_offset: u8,
    data: u16,
    input_type: InputType,
}

impl InputData {
    pub closed spec fn config(self) -> InputConfig {
        InputConfig { start_offset: self.start_offset, input_type: self.input_type }
    }

    pub closed spec fn word(self) -> u16 {
        self.data
    }

    /// The lines of the field at `config`, read from `word`.
    pub closed spec fn snapshot(config: InputConfig, word: u16) -> InputData {
        InputData { start_offset: config.start_offset, data: word, input_type: config.input_type }
    }

    pub open spec fn wf(self) -> bool {
        self.config().wf()
    }

    pub broadcast proof fn lemma_snapshot(config: InputConfig, word: u16)
        ensures
            (#[trigger] InputData::snapshot(config, word)).config() == config,
            InputData::snapshot(config, word).word() == word,
    {
    }

    /// Line `i` of the field (counted from zero) is high in the snapshot.
    pub open spec fn line(self, i: nat) -> bool {
        bit_set(self.word(), (self.config().offset() + i) as u16)
    }

    /// Line `i` of the field, or `None` where the field has no such line.
    pub open spec fn line_opt(self, i: nat) -> Option<bool> {
        if i < self.config().kind().width() {
            Some(self.line(i))
        } else {
            None
        }
    }

    pub fn new(config: &InputConfig, data: u16) -> (r: InputData)
        ensures
            r == InputData::snapshot(*config, data),
            r.config() == *config,
            r.word() == data,
    {
        InputData { start_offset: config.start_offset, data, input_type: config.input_type }
    }

    /// The first line of the field, which every field has.
    pub fn is_input1_high(&self) -> (r: bool)
        requires
            self.wf(),
        ensures
            r == self.line(0),
    {
        test_bit(self.data, self.start_offset as u16)
    }

    /// The second line of a field of two or three lines.
    pub fn is_input2_high(&self) -> (r: bool)
        requires
            self.wf(),
            self.config().kind().width() >= 2,
        ensures
            r == self.line(1),
    {
        test_bit(self.data, self.start_offset as u16 + 1)
    }

    /// The third line of a field of three lines.
    pub fn is_input3_high(&self) -> (r: bool)
        requires
            self.wf(),
            self.config().kind().width() >= 3,
        ensures
            r == self.line(2),
    {
        test_bit(self.data, self.start_offset as u16 + 2)
    }

    pub fn input1_is_high(&self) -> (r: Option<bool>)
        requires
            self.wf(),
        ensures
            r == self.line_opt(0),
    {
        Some(self.is_input1_high())
    }

    pub fn input2_is_high(&self) -> (r: Option<bool>)
        requires
            self.wf(),
        ensures
            r == self.line_opt(1),
    {
        match self.input_type {
            InputType::Single => None,
            InputType::Double | InputType::Triple => Some(self.is_input2_high()),
        }
    }

    pub fn input3_is_high(&self) -> (r: Option<bool>)
        requires
            self.wf(),
        ensures
            r == self.line_opt(2),
    {
        match self.input_type {
            InputType::Single | InputType::Double => None,
            InputType::Triple => Some(self.is_input3_high()),
        }
    }
}


#[verifier::external_type_specification]
#[verifier::external_body]
#[verifier::reject_recursive_types(T)]
pub struct ExFixedVec<T, const N: usize>(heapless::Vec<T, N>);

/// The `(offset, width)` entries held by a layout vector, in order.
pub uninterp spec fn layout_entries(v: heapless::Vec<(u8, u8), 16>) -> Seq<(u8, u8)>;

/// Relies on `heapless::Vec::new`: the vector starts empty.
#[verifier::external_body]
fn layout_new() -> (r: heapless::Vec<(u8, u8), 16>)
    ensures
        layout_entries(r) == Seq::<(u8, u8)>::empty(),
{
    heapless::Vec::new()
}

/// Relies on the length of the slice that `heapless::Vec` derefs to: the number of entries held.
#[verifier::external_body]
fn layout_len(v: &heapless::Vec<(u8, u8), 16>) -> (r: usize)
    ensures
        r == layout_entries(*v).len(),
{
    v.len()
}

/// Relies on indexing the slice that `heapless::Vec` derefs to: entry `i`, for `i` below the length.
#[verifier::external_body]
fn layout_get(v: &heapless::Vec<(u8, u8), 16>, i: usize) -> (r: (u8, u8))
    requires
        i < layout_entries(*v).len(),
    ensures
        r == layout_entries(*v)[i as int],
{
    v[i]
}

/// Relies on `heapless::Vec::push`: below the capacity of 16 the entry is appended;
/// at the capacity it is handed back and the vector is left as it was.
#[verifier::external_body]
fn layout_push(v: &mut heapless::Vec<(u8, u8), 16>, item: (u8, u8)) -> (r: Result<(), (u8, u8)>)
    ensures
        layout_entries(*old(v)).len() < 16 ==> r is Ok && layout_entries(*final(v))
            == layout_entries(*old(v)).push(item),
        layout_entries(*old(v)).len() >= 16 ==> r is Err && r->Err_0 == item && layout_entries(
            *final(v),
        ) == layout_entries(*old(v)),
{
    v.push(item)
}

/// Total number of lines taken by the fields of `layout`.
pub open spec fn used_width(layout: Seq<(u8, u8)>) -> nat
    decreases layout.len(),
{
    if layout.len() == 0 {
        0
    } else {
        used_width(layout.drop_last()) + layout.last().1 as nat
    }
}

/// A field of `width` lines can still be added after `layout`.
pub open spec fn fits(layout: Seq<(u8, u8)>, width: nat) -> bool {
    used_width(layout) + width <= INPUT_BITS && layout.len() < MAX_FIELDS
}

/// The layout after asking for a field of `width` lines: the field is appended,
/// starting where the others end, if it fits; otherwise nothing changes.
pub open spec fn registered(layout: Seq<(u8, u8)>, width: nat) -> Seq<(u8, u8)> {
    if fits(layout, width) {
        layout.push((used_width(layout) as u8, width as u8))
    } else {
        layout
    }
}

/// Each field has one to three lines and starts where the fields before it end,
/// and together they fit in the word and in the slots.
pub open spec fn layout_wf(layout: Seq<(u8, u8)>) -> bool {
    &&& layout.len() <= MAX_FIELDS
    &&& used_width(layout) <= INPUT_BITS
    &&& forall|i: int|
        0 <= i < layout.len() ==> 1 <= (#[trigger] layout[i]).1 <= 3 && layout[i].0 == used_width(
            layout.take(i),
        )
}

/// The fields before position `i` take no more lines than all of them.
pub proof fn lemma_used_width_prefix(layout: Seq<(u8, u8)>, i: int)
    requires
        0 <= i <= layout.len(),
    ensures
        used_width(layout.take(i)) <= used_width(layout),
    decreases layout.len() - i,
{
    if i < layout.len() {
        lemma_used_width_prefix(layout, i + 1);
        assert(layout.take(i + 1).drop_last() =~= layout.take(i));
    } else {
        assert(layout.take(i) =~= layout);
    }
}

/// Sum of a sequence of widths.
pub open spec fn sum_widths(widths: Seq<nat>) -> nat
    decreases widths.len(),
{
    if widths.len() == 0 {
        0
    } else {
        sum_widths(widths.drop_last()) + widths.last()
    }
}

/// The layout left by asking, from an empty allocator, for fields of the given widths in order.
pub open spec fn registrations(widths: Seq<nat>) -> Seq<(u8, u8)>
    decreases widths.len(),
{
    if widths.len() == 0 {
        Seq::empty()
    } else {
        registered(registrations(widths.drop_last()), widths.last())
    }
}

proof fn lemma_sum_widths_prefix(widths: Seq<nat>, i: int, j: int)
    requires
        0 <= i <= j <= widths.len(),
    ensures
        sum_widths(widths.take(i)) <= sum_widths(widths.take(j)),
    decreases j - i,
{
    if i < j {
        lemma_sum_widths_prefix(widths, i, j - 1);
        assert(widths.take(j).drop_last() =~= widths.take(j - 1));
    }
}

/// The layout after one more registration of `width` lines is what the layout before it
/// becomes under that registration; an allocator whose fields are `registrations(widths)`
/// thus holds `registrations(widths.push(width))` after `get_input` of that width.
pub proof fn lemma_registrations_push(widths: Seq<nat>, width: nat)
    ensures
        registrations(widths.push(width)) == registered(registrations(widths), width),
        registrations(Seq::<nat>::empty()) == Seq::<(u8, u8)>::empty(),
{
    assert(widths.push(width).drop_last() =~= widths);
}

/// Fields of widths `w_1, ..., w_n`, each of one to three lines, at most 16 of them and at
/// most 16 lines in all, are all granted; field `i` starts at the sum of the widths before
/// it, so the offsets strictly increase.
pub proof fn lemma_offsets_are_prefix_sums(widths: Seq<nat>)
    requires
        widths.len() <= MAX_FIELDS,
        forall|i: int| 0 <= i < widths.len() ==> 1 <= #[trigger] widths[i] <= 3,
        sum_widths(widths) <= INPUT_BITS,
    ensures
        registrations(widths).len() == widths.len(),
        used_width(registrations(widths)) == sum_widths(widths),
        forall|i: int|
            0 <= i < widths.len() ==> (#[trigger] registrations(widths)[i]).0 as nat == sum_widths(
                widths.take(i),
            ) && registrations(widths)[i].1 as nat == widths[i],
        forall|i: int, j: int|
            0 <= i < j < widths.len() ==> (#[trigger] registrations(widths)[i]).0
                < (#[trigger] registrations(widths)[j]).0,
    decreases widths.len(),
{
    if widths.len() > 0 {
        let n = widths.len() - 1;
        let prev = widths.drop_last();
        assert forall|i: int| 0 <= i < prev.len() implies 1 <= #[trigger] prev[i] <= 3 by {
            assert(prev[i] == widths[i]);
        }
        assert(widths.take(n) =~= prev);
        lemma_sum_widths_prefix(widths, n, n + 1);
        assert(widths.take(n + 1) =~= widths);
        lemma_offsets_are_prefix_sums(prev);
        let before = registrations(prev);
        let after = registrations(widths);
        assert(fits(before, widths.last()));
        assert(after == before.push((sum_widths(prev) as u8, widths.last() as u8)));
        assert(after.drop_last() =~= before);
        assert forall|i: int| 0 <= i < prev.len() implies widths.take(i) =~= prev.take(i) by {}
        assert forall|i: int, j: int| 0 <= i < j < widths.len() implies (#[trigger] after[i]).0
            < (#[trigger] after[j]).0 by {
            lemma_sum_widths_prefix(widths, i + 1, j);
            assert(widths.take(i + 1).drop_last() =~= widths.take(i));
        }
    }
}

/// A field that would run past the input word, or a field beyond the last slot, is refused
/// without a trace: the layout stays as it was, and a later registration gets exactly the
/// offset it would have got had the refused one never been asked for.
pub proof fn lemma_refused_registration_changes_nothing(
    layout: Seq<(u8, u8)>,
    width: nat,
    next: nat,
)
    requires
        used_width(layout) + width > INPUT_BITS || layout.len() >= MAX_FIELDS,
    ensures
        !fits(layout, width),
        registered(layout, width) == layout,
        registered(registered(layout, width), next) == registered(layout, next),
{
}

/// The raw input word and the fields allocated inside it.
pub struct InputArray {
    raw: u16,
    layout: heapless::Vec<(u8, u8), 16>,
}

impl InputArray {
    /// The fields registered so far, as `(offset, width)`, in registration order.
    pub closed spec fn fields(self) -> Seq<(u8, u8)> {
        layout_entries(self.layout)
    }

    /// The current snapshot of the input word.
    pub closed spec fn raw_word(self) -> u16 {
        self.raw
    }

    pub open spec fn wf(self) -> bool {
        layout_wf(self.fields())
    }

    /// An allocator with no fields and an all-low snapshot.
    pub fn new() -> (r: InputArray)
        ensures
            r.wf(),
            r.fields() == Seq::<(u8, u8)>::empty(),
            r.raw_word() == 0,
    {
        InputArray { raw: 0, layout: layout_new() }
    }

    /// Replaces the snapshot of the input word.
    pub fn update(&mut self, data: u16)
        ensures
            final(self).fields() == old(self).fields(),
            final(self).raw_word() == data,
    {
        self.raw = data;
    }

    /// The current snapshot of the input word.
    pub fn raw(&self) -> (r: u16)
        ensures
            r == self.raw_word(),
    {
        self.raw
    }

    /// Number of lines taken by the registered fields.
    pub fn size_used(&self) -> (r: u8)
        requires
            self.wf(),
        ensures
            r == used_width(self.fields()),
    {
        let n = layout_len(&self.layout);
        let mut used: u8 = 0;
        let mut i: usize = 0;
        while i < n
            invariant
                n == self.fields().len(),
                layout_wf(self.fields()),
                i <= n,
                used == used_width(self.fields().take(i as int)),
            decreases n - i,
        {
            let entry = layout_get(&self.layout, i);
            proof {
                let f = self.fields();
                assert(f.take(i + 1).drop_last() =~= f.take(i as int));
                lemma_used_width_prefix(f, i + 1);
            }
            used = used + entry.1;
            i = i + 1;
        }
        proof {
            assert(self.fields().take(n as int) =~= self.fields());
        }
        used
    }

    /// Allocates a field of the given class right after the registered ones.
    /// Fails with `TooManyInputs`, changing nothing, where the field would run
    /// past the input word or every slot is taken.
    pub fn get_input(&mut self, input: InputType) -> (r: Result<InputConfig, Error>)
        requires
            old(self).wf(),
        ensures
            final(self).wf(),
            final(self).raw_word() == old(self).raw_word(),
            final(self).fields() == registered(old(self).fields(), input.width()),
            r is Ok <==> fits(old(self).fields(), input.width()),
            r matches Ok(c) ==> c.wf() && c.kind() == input && c.offset() == used_width(
                old(self).fields(),
            ),
            r matches Err(e) ==> e == Error::TooManyInputs,
    {
        let used = self.size_used();
        let width = input.size();
        if used + width > INPUT_BITS {
            return Err(Error::TooManyInputs);
        }
        let ghost before = self.fields();
        match layout_push(&mut self.layout, (used, width)) {
            Err(_) => {
                return Err(Error::TooManyInputs);
            },
            Ok(()) => {},
        }
        proof {
            let after = self.fields();
            assert(after.drop_last() =~= before);
            assert(after.take(before.len() as int) =~= before);
            assert forall|i: int| 0 <= i < before.len() implies after.take(i) =~= before.take(i) by {}
        }
        Ok(InputConfig { start_offset: used, input_type: input })
    }

    /// The field described by `config`, decoded from the current snapshot.
    pub fn read(&self, config: &InputConfig) -> (r: InputData)
        ensures
            r == InputData::snapshot(*config, self.raw_word()),
            r.config() == *config,
            r.word() == self.raw_word(),
    {
        InputData::new(config, self.raw)
    }
}

} // verus!
