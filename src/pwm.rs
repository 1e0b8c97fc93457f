//! The PWM timers as an arena of sub-channels, and the handles that name them.
use crate::inputs::{bit_set, Error};
use vstd::prelude::*;

verus! {


/// Number of PWM timers owned by a controller.
pub const TIMERS: usize = 4;

/// Number of sub-channel slots over all timers.
pub const SLOTS: usize = 16;

/// A sub-channel inside one timer.
#[derive(Debug, Clone, Copy, PartialEq, Eq, Structural)]
pub enum Channel {
    _0,
    _1,
    _2,
    _3,
}

impl Channel {
    pub open spec fn number(self) -> nat {
        match self {
            Channel::_0 => 0,
            Channel::_1 => 1,
            Channel::_2 => 2,
            Channel::_3 => 3,
        }
    }

    pub fn index(&self) -> (r: usize)
        ensures
            r == self.number(),
    {
        match self {
            Channel::_0 => 0,
            Channel::_1 => 1,
            Channel::_2 => 2,
            Channel::_3 => 3,
        }
    }
}

/// Which timer, and which sub-channel of it, drives an output.
#[derive(Debug, Clone, Copy, PartialEq, Eq, Structural)]
pub enum Configuration {
    Tcc0(Channel),
    Tcc1(Channel),
    Tcc2(Channel),
    Tc3,
}

impl Configuration {
    /// Position of the timer among the controller's timers.
    pub open spec fn timer(self) -> nat {
        match self {
            Configuration::Tcc0(_) => 0,
            Configuration::Tcc1(_) => 1,
            Configuration::Tcc2(_) => 2,
            Configuration::Tc3 => 3,
        }
    }

    /// Position of the sub-channel among all slots of the controller.
    pub open spec fn slot(self) -> nat {
        match self {
            Configuration::Tcc0(c) => c.number(),
            Configuration::Tcc1(c) => 4 + c.number(),
            Configuration::Tcc2(c) => 8 + c.number(),
            Configuration::Tc3 => 12,
        }
    }

    pub fn timer_index(&self) -> (r: usize)
        ensures
            r == self.timer(),
            r < TIMERS,
    {
        match self {
            Configuration::Tcc0(_) => 0,
            Configuration::Tcc1(_) => 1,
            Configuration::Tcc2(_) => 2,
            Configuration::Tc3 => 3,
        }
    }

    pub fn slot_index(&self) -> (r: usize)
        ensures
            r == self.slot(),
            r < SLOTS,
    {
        match self {
            Configuration::Tcc0(c) => c.index(),
            Configuration::Tcc1(c) => 4 + c.index(),
            Configuration::Tcc2(c) => 8 + c.index(),
            Configuration::Tc3 => 12,
        }
    }
}

/// Two different configurations name two different slots.
pub proof fn lemma_slot_injective(a: Configuration, b: Configuration)
    requires
        a != b,
    ensures
        a.slot() != b.slot(),
{
}

/// The output of one sub-channel: whether it is enabled, and its duty in the timer's resolution.
#[derive(Debug, Clone, Copy, PartialEq, Eq, Structural)]
pub struct State {
    pub enabled: bool,
    pub duty_cycle: u32,
}

/// `outputs` with the duty of `slot` set to `duty`.
pub open spec fn with_duty(outputs: Seq<State>, slot: nat, duty: u32) -> Seq<State> {
    outputs.update(slot as int, State { duty_cycle: duty, ..outputs[slot as int] })
}

/// `outputs` with `slot` enabled or disabled.
pub open spec fn with_enabled(outputs: Seq<State>, slot: nat, enabled: bool) -> Seq<State> {
    outputs.update(slot as int, State { enabled, ..outputs[slot as int] })
}

/// Setting the duty, or the enable state, of the output named by `a` leaves the output
/// named by any other configuration `b` as it was, whether `b` is on the same timer or not.
pub proof fn lemma_channel_isolation(
    outputs: Seq<State>,
    a: Configuration,
    b: Configuration,
    duty: u32,
    enabled: bool,
)
    requires
        outputs.len() == SLOTS,
        a != b,
    ensures
        with_duty(outputs, a.slot(), duty)[b.slot() as int] == outputs[b.slot() as int],
        with_enabled(outputs, a.slot(), enabled)[b.slot() as int] == outputs[b.slot() as int],
{
    lemma_slot_injective(a, b);
}

proof fn lemma_mark_issued(mask: u16, s: u16, t: u16)
    requires
        s < 16,
        t < 16,
    ensures
        bit_set(mask | (1u16 << s), t) == (bit_set(mask, t) || t == s),
{
    assert(bit_set(mask | (1u16 << s), t) == (bit_set(mask, t) || t == s)) by (bit_vector)
        requires
            s < 16,
            t < 16,
    ;
}

/// The sole owner of the PWM timers. All timers run at one period, fixed when the
/// controller is made; each sub-channel keeps its own duty and enable state, and
/// each is handed out at most once.
pub struct Controller {
    period: u32,
    max_duty: Vec<u32>,
    outputs: Vec<State>,
    issued: u16,
}

impl Controller {
    /// The shared frequency of the timers.
    pub closed spec fn frequency(self) -> u32 {
        self.period
    }

    /// The largest duty of each timer.
    pub closed spec fn max_duties(self) -> Seq<u32> {
        self.max_duty@
    }

    /// The output of each slot.
    pub closed spec fn outputs(self) -> Seq<State> {
        self.outputs@
    }

    /// The slot has been handed out.
    pub closed spec fn is_issued(self, slot: nat) -> bool {
        slot < SLOTS && bit_set(self.issued, slot as u16)
    }

    /// Every output asks for no more than the largest duty of its timer.
    pub open spec fn wf(self) -> bool {
        &&& self.max_duties().len() == TIMERS
        &&& self.outputs().len() == SLOTS
        &&& forall|s: int|
            0 <= s < SLOTS ==> (#[trigger] self.outputs()[s]).duty_cycle <= self.max_duties()[s
                / 4]
    }

    /// The output driven through `config`.
    pub open spec fn output(self, config: Configuration) -> State {
        self.outputs()[config.slot() as int]
    }

    /// The largest duty of the timer behind `config`.
    pub open spec fn max_duty_of(self, config: Configuration) -> u32 {
        self.max_duties()[config.timer() as int]
    }

    /// A controller whose timers run at `frequency`, timer `i` with the largest duty
    /// `max_duty[i]`; every output disabled at duty zero, and no channel handed out.
    pub fn new(frequency: u32, max_duty: [u32; 4]) -> (r: Controller)
        ensures
            r.wf(),
            r.frequency() == frequency,
            r.max_duties() == max_duty@,
            forall|s: int| 0 <= s < SLOTS ==> #[trigger] r.outputs()[s] == (State {
                enabled: false,
                duty_cycle: 0,
            }),
            forall|s: nat| !r.is_issued(s),
    {
        let mut duties: Vec<u32> = Vec::new();
        let mut t: usize = 0;
        while t < TIMERS
            invariant
                t <= TIMERS,
                duties@ == max_duty@.take(t as int),
            decreases TIMERS - t,
        {
            duties.push(max_duty[t]);
            t = t + 1;
            proof {
                assert(duties@ =~= max_duty@.take(t as int));
            }
        }
        let mut outputs: Vec<State> = Vec::new();
        let mut s: usize = 0;
        while s < SLOTS
            invariant
                s <= SLOTS,
                outputs@.len() == s,
                forall|k: int| 0 <= k < s ==> #[trigger] outputs@[k] == (State {
                    enabled: false,
                    duty_cycle: 0,
                }),
            decreases SLOTS - s,
        {
            outputs.push(State { enabled: false, duty_cycle: 0 });
            s = s + 1;
        }
        proof {
            assert(duties@ =~= max_duty@);
        }
        let r = Controller { period: frequency, max_duty: duties, outputs, issued: 0 };
        proof {
            assert forall|s: nat| !r.is_issued(s) by {
                if s < 16 {
                    let t = s as u16;
                    assert(!bit_set(0u16, t)) by (bit_vector);
                }
            }
        }
        r
    }

    /// The shared frequency of the timers.
    pub fn period(&self) -> (r: u32)
        ensures
            r == self.frequency(),
    {
        self.period
    }

    /// `next` has the frequency, the largest duties and the handed-out slots of `self`.
    pub open spec fn same_setup(self, next: Controller) -> bool {
        &&& next.frequency() == self.frequency()
        &&& next.max_duties() == self.max_duties()
        &&& forall|s: nat| #[trigger] next.is_issued(s) == self.is_issued(s)
    }

    /// The output driven through `config`.
    pub fn output_of(&self, config: Configuration) -> (r: State)
        requires
            self.wf(),
        ensures
            r == self.output(config),
    {
        self.outputs[config.slot_index()]
    }

    /// Whether the sub-channel named by `config` has been handed out.
    pub fn is_taken(&self, config: Configuration) -> (r: bool)
        ensures
            r == self.is_issued(config.slot()),
    {
        let slot = config.slot_index();
        let issued = self.issued;
        proof {
            let t = slot as u16;
            assert((issued & (1u16 << t) != 0u16) == bit_set(issued, t)) by (bit_vector)
                requires
                    t < 16,
            ;
        }
        issued & (1u16 << (slot as u16)) != 0
    }

    /// Hands out the sub-channel named by `config`, unless it was handed out before.
    pub fn channel(&mut self, config: Configuration) -> (r: Result<ChannelPin, Error>)
        requires
            old(self).wf(),
        ensures
            final(self).wf(),
            final(self).frequency() == old(self).frequency(),
            final(self).max_duties() == old(self).max_duties(),
            final(self).outputs() == old(self).outputs(),
            r is Ok <==> !old(self).is_issued(config.slot()),
            r matches Ok(p) ==> p.config() == config,
            r matches Err(e) ==> e == Error::ChannelInUse,
            forall|s: nat| #[trigger]
                final(self).is_issued(s) == (old(self).is_issued(s) || s == config.slot()),
    {
        let slot = config.slot_index();
        let mask: u16 = 1u16 << (slot as u16);
        let issued = self.issued;
        let was_issued = issued & mask != 0;
        proof {
            let t = slot as u16;
            assert((issued & (1u16 << t) != 0u16) == bit_set(issued, t)) by (bit_vector)
                requires
                    t < 16,
            ;
        }
        if was_issued {
            return Err(Error::ChannelInUse);
        }
        let ghost before = self.issued;
        self.issued = self.issued | mask;
        proof {
            assert forall|s: nat| #[trigger]
                self.is_issued(s) == (bit_set(before, s as u16) && s < SLOTS || s == config.slot()) by {
                if s < SLOTS {
                    lemma_mark_issued(before, slot as u16, s as u16);
                }
            }
        }
        Ok(ChannelPin { config })
    }

    /// Hands out a sub-channel of the first TCC timer.
    pub fn tcc0_channel(&mut self, channel: Channel) -> (r: Result<ChannelPin, Error>)
        requires
            old(self).wf(),
        ensures
            final(self).wf(),
            final(self).frequency() == old(self).frequency(),
            final(self).max_duties() == old(self).max_duties(),
            final(self).outputs() == old(self).outputs(),
            r is Ok <==> !old(self).is_issued(channel.number()),
            r matches Ok(p) ==> p.config() == Configuration::Tcc0(channel),
            r matches Err(e) ==> e == Error::ChannelInUse,
            forall|s: nat| #[trigger]
                final(self).is_issued(s) == (old(self).is_issued(s) || s == channel.number()),
    {
        self.channel(Configuration::Tcc0(channel))
    }

    /// Hands out a sub-channel of the second TCC timer.
    pub fn tcc1_channel(&mut self, channel: Channel) -> (r: Result<ChannelPin, Error>)
        requires
            old(self).wf(),
        ensures
            final(self).wf(),
            final(self).frequency() == old(self).frequency(),
            final(self).max_duties() == old(self).max_duties(),
            final(self).outputs() == old(self).outputs(),
            r is Ok <==> !old(self).is_issued(4 + channel.number()),
            r matches Ok(p) ==> p.config() == Configuration::Tcc1(channel),
            r matches Err(e) ==> e == Error::ChannelInUse,
            forall|s: nat| #[trigger]
                final(self).is_issued(s) == (old(self).is_issued(s) || s == 4 + channel.number()),
    {
        self.channel(Configuration::Tcc1(channel))
    }

    /// Hands out a sub-channel of the third TCC timer.
    pub fn tcc2_channel(&mut self, channel: Channel) -> (r: Result<ChannelPin, Error>)
        requires
            old(self).wf(),
        ensures
            final(self).wf(),
            final(self).frequency() == old(self).frequency(),
            final(self).max_duties() == old(self).max_duties(),
            final(self).outputs() == old(self).outputs(),
            r is Ok <==> !old(self).is_issued(8 + channel.number()),
            r matches Ok(p) ==> p.config() == Configuration::Tcc2(channel),
            r matches Err(e) ==> e == Error::ChannelInUse,
            forall|s: nat| #[trigger]
                final(self).is_issued(s) == (old(self).is_issued(s) || s == 8 + channel.number()),
    {
        self.channel(Configuration::Tcc2(channel))
    }

    /// Hands out the single output of the TC timer.
    pub fn tc3_channel(&mut self) -> (r: Result<ChannelPin, Error>)
        requires
            old(self).wf(),
        ensures
            final(self).wf(),
            final(self).frequency() == old(self).frequency(),
            final(self).max_duties() == old(self).max_duties(),
            final(self).outputs() == old(self).outputs(),
            r is Ok <==> !old(self).is_issued(12),
            r matches Ok(p) ==> p.config() == Configuration::Tc3,
            r matches Err(e) ==> e == Error::ChannelInUse,
            forall|s: nat| #[trigger] final(self).is_issued(s) == (old(self).is_issued(s) || s == 12),
    {
        self.channel(Configuration::Tc3)
    }

    /// Hands out, at once, every output wired on the board: the four sub-channels of the
    /// first TCC timer, the first two of the second and third, and the TC timer's output.
    /// Fails with `ChannelInUse`, handing out nothing, where any of them was handed out before.
    pub fn make_channels(&mut self) -> (r: Result<AllChannels, Error>)
        requires
            old(self).wf(),
        ensures
            final(self).wf(),
            final(self).frequency() == old(self).frequency(),
            final(self).max_duties() == old(self).max_duties(),
            final(self).outputs() == old(self).outputs(),
            r is Ok <==> forall|s: nat| is_board_slot(s) ==> !#[trigger] old(self).is_issued(s),
            r matches Err(e) ==> e == Error::ChannelInUse,
            r is Err ==> forall|s: nat| #[trigger] final(self).is_issued(s) == old(self).is_issued(s),
            r is Ok ==> forall|s: nat| #[trigger]
                final(self).is_issued(s) == (old(self).is_issued(s) || is_board_slot(s)),
            r matches Ok(all) ==> {
                &&& all.0.cc0.config() == Configuration::Tcc0(Channel::_0)
                &&& all.0.cc1.config() == Configuration::Tcc0(Channel::_1)
                &&& all.0.cc2.config() == Configuration::Tcc0(Channel::_2)
                &&& all.0.cc3.config() == Configuration::Tcc0(Channel::_3)
                &&& all.1.cc0.config() == Configuration::Tcc1(Channel::_0)
                &&& all.1.cc1.config() == Configuration::Tcc1(Channel::_1)
                &&& all.2.cc0.config() == Configuration::Tcc2(Channel::_0)
                &&& all.2.cc1.config() == Configuration::Tcc2(Channel::_1)
                &&& all.3.cc0.config() == Configuration::Tc3
            },
    {
        let free = !self.is_taken(Configuration::Tcc0(Channel::_0)) && !self.is_taken(
            Configuration::Tcc0(Channel::_1),
        ) && !self.is_taken(Configuration::Tcc0(Channel::_2)) && !self.is_taken(
            Configuration::Tcc0(Channel::_3),
        ) && !self.is_taken(Configuration::Tcc1(Channel::_0)) && !self.is_taken(
            Configuration::Tcc1(Channel::_1),
        ) && !self.is_taken(Configuration::Tcc2(Channel::_0)) && !self.is_taken(
            Configuration::Tcc2(Channel::_1),
        ) && !self.is_taken(Configuration::Tc3);
        if !free {
            proof {
                assert(exists|s: nat| is_board_slot(s) && #[trigger] self.is_issued(s)) by {
                    if self.is_issued(0) {
                    } else if self.is_issued(1) {
                    } else if self.is_issued(2) {
                    } else if self.is_issued(3) {
                    } else if self.is_issued(4) {
                    } else if self.is_issued(5) {
                    } else if self.is_issued(8) {
                    } else if self.is_issued(9) {
                    } else {
                        assert(self.is_issued(12));
                    }
                }
            }
            return Err(Error::ChannelInUse);
        }
        let ghost start = *self;
        let t0c0 = match self.tcc0_channel(Channel::_0) { Ok(p) => p, Err(e) => return Err(e) };
        let t0c1 = match self.tcc0_channel(Channel::_1) { Ok(p) => p, Err(e) => return Err(e) };
        let t0c2 = match self.tcc0_channel(Channel::_2) { Ok(p) => p, Err(e) => return Err(e) };
        let t0c3 = match self.tcc0_channel(Channel::_3) { Ok(p) => p, Err(e) => return Err(e) };
        let t1c0 = match self.tcc1_channel(Channel::_0) { Ok(p) => p, Err(e) => return Err(e) };
        let t1c1 = match self.tcc1_channel(Channel::_1) { Ok(p) => p, Err(e) => return Err(e) };
        let t2c0 = match self.tcc2_channel(Channel::_0) { Ok(p) => p, Err(e) => return Err(e) };
        let t2c1 = match self.tcc2_channel(Channel::_1) { Ok(p) => p, Err(e) => return Err(e) };
        let t3 = match self.tc3_channel() { Ok(p) => p, Err(e) => return Err(e) };
        proof {
            assert forall|s: nat| #[trigger]
                self.is_issued(s) == (start.is_issued(s) || is_board_slot(s)) by {}
        }
        Ok(
            (
                Tcc0Channels { cc0: t0c0, cc1: t0c1, cc2: t0c2, cc3: t0c3 },
                Tcc1Channels { cc0: t1c0, cc1: t1c1 },
                Tcc2Channels { cc0: t2c0, cc1: t2c1 },
                Tc3Channels { cc0: t3 },
            ),
        )
    }
}

/// The slots of the outputs wired on the board.
pub open spec fn is_board_slot(s: nat) -> bool {
    s <= 5 || s == 8 || s == 9 || s == 12
}

/// The four outputs of the first TCC timer.
pub struct Tcc0Channels {
    pub cc0: ChannelPin,
    pub cc1: ChannelPin,
    pub cc2: ChannelPin,
    pub cc3: ChannelPin,
}

/// The two wired outputs of the second TCC timer.
pub struct Tcc1Channels {
    pub cc0: ChannelPin,
    pub cc1: ChannelPin,
}

/// The two wired outputs of the third TCC timer.
pub struct Tcc2Channels {
    pub cc0: ChannelPin,
    pub cc1: ChannelPin,
}

/// The output of the TC timer.
pub struct Tc3Channels {
    pub cc0: ChannelPin,
}

/// Every output wired on the board, grouped by timer.
pub type AllChannels = (Tcc0Channels, Tcc1Channels, Tcc2Channels, Tc3Channels);

/// A handle on one sub-channel of a controller's timers. It cannot be copied, so the
/// controller hands out each sub-channel at most once; it is used only on a controller
/// that has handed out its sub-channel.
#[derive(Debug)]
pub struct ChannelPin {
    config: Configuration,
}

impl ChannelPin {
    pub closed spec fn config(self) -> Configuration {
        self.config
    }

    /// Turns the output on, at its current duty.
    pub fn enable(&self, pwm: &mut Controller)
        requires
            old(pwm).is_issued(self.config().slot()),
            old(pwm).wf(),
        ensures
            final(pwm).wf(),
            old(pwm).same_setup(*final(pwm)),
            final(pwm).outputs() == with_enabled(old(pwm).outputs(), self.config().slot(), true),
    {
        let i = self.config.slot_index();
        let cur = pwm.outputs[i];
        pwm.outputs.set(i, State { enabled: true, duty_cycle: cur.duty_cycle });
        proof {
            assert(pwm.outputs@ =~= with_enabled(old(pwm).outputs(), self.config().slot(), true));
        }
    }

    /// Turns the output off, keeping its duty.
    pub fn disable(&self, pwm: &mut Controller)
        requires
            old(pwm).is_issued(self.config().slot()),
            old(pwm).wf(),
        ensures
            final(pwm).wf(),
            old(pwm).same_setup(*final(pwm)),
            final(pwm).outputs() == with_enabled(old(pwm).outputs(), self.config().slot(), false),
    {
        let i = self.config.slot_index();
        let cur = pwm.outputs[i];
        pwm.outputs.set(i, State { enabled: false, duty_cycle: cur.duty_cycle });
        proof {
            assert(pwm.outputs@ =~= with_enabled(old(pwm).outputs(), self.config().slot(), false));
        }
    }

    /// The current duty of the output.
    pub fn get_duty(&self, pwm: &Controller) -> (r: u32)
        requires
            pwm.is_issued(self.config().slot()),
            pwm.wf(),
        ensures
            r == pwm.output(self.config()).duty_cycle,
    {
        pwm.outputs[self.config.slot_index()].duty_cycle
    }

    /// Whether the output is on.
    pub fn is_enabled(&self, pwm: &Controller) -> (r: bool)
        requires
            pwm.is_issued(self.config().slot()),
            pwm.wf(),
        ensures
            r == pwm.output(self.config()).enabled,
    {
        pwm.outputs[self.config.slot_index()].enabled
    }

    /// The largest duty of the output's timer.
    pub fn get_max_duty(&self, pwm: &Controller) -> (r: u32)
        requires
            pwm.is_issued(self.config().slot()),
            pwm.wf(),
        ensures
            r == pwm.max_duty_of(self.config()),
    {
        pwm.max_duty[self.config.timer_index()]
    }

    /// Sets the duty of the output, leaving it on or off as it was.
    pub fn set_duty(&self, pwm: &mut Controller, duty: u32)
        requires
            old(pwm).is_issued(self.config().slot()),
            old(pwm).wf(),
            duty <= old(pwm).max_duty_of(self.config()),
        ensures
            final(pwm).wf(),
            old(pwm).same_setup(*final(pwm)),
            final(pwm).outputs() == with_duty(old(pwm).outputs(), self.config().slot(), duty),
    {
        let i = self.config.slot_index();
        let cur = pwm.outputs[i];
        pwm.outputs.set(i, State { enabled: cur.enabled, duty_cycle: duty });
        proof {
            assert(pwm.outputs@ =~= with_duty(old(pwm).outputs(), self.config().slot(), duty));
        }
    }

    /// The timer and sub-channel this handle names.
    pub fn configuration(&self) -> (r: Configuration)
        ensures
            r == self.config(),
    {
        self.config
    }
}

} // verus!
