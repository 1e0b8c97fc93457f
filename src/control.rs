//! The control loop: one snapshot of the inputs drives every actuator's channel.
use crate::actuators::Actuator;
use crate::inputs::{fits, registered, Error, InputArray, InputData};
use crate::pwm::{with_duty, with_enabled, ChannelPin, Configuration, Controller, State, SLOTS};
use vstd::prelude::*;

verus! {

broadcast use crate::inputs::InputData::lemma_snapshot;

/// The input word carried by two bytes received low byte first.
pub open spec fn le_word(bytes: [u8; 2]) -> u16 {
    (bytes@[0] + 256 * bytes@[1]) as u16
}

/// Reads the input word from the two bytes of a bus transfer, low byte first.
pub fn word_from_le_bytes(bytes: [u8; 2]) -> (r: u16)
    ensures
        r == le_word(bytes),
        r as int == bytes@[0] + 256 * bytes@[1],
{
    let lo = bytes[0];
    let hi = bytes[1];
    assert((lo as u16) | ((hi as u16) << 8u16) == lo + 256 * hi) by (bit_vector);
    (lo as u16) | ((hi as u16) << 8u16)
}

/// Some position `k` of `pins` names slot `s`.
pub open spec fn drives_slot(pins: Seq<Configuration>, s: nat) -> bool {
    exists|k: int| 0 <= k < pins.len() && (#[trigger] pins[k]).slot() == s
}

/// The inputs, the actuators and the channels they drive, with each actuator's last output.
pub struct Solenoids<A: Actuator> {
    pwm: Controller,
    input_array: InputArray,
    actuators: Vec<A>,
    pins: Vec<ChannelPin>,
    states: Vec<State>,
}

impl<A: Actuator> Solenoids<A> {
    pub closed spec fn controller(self) -> Controller {
        self.pwm
    }

    pub closed spec fn inputs(self) -> InputArray {
        self.input_array
    }

    /// The actuators, in registration order.
    pub closed spec fn actuator_seq(self) -> Seq<A> {
        self.actuators@
    }

    /// The channel driven by each actuator.
    pub closed spec fn pin_seq(self) -> Seq<Configuration> {
        self.pins@.map_values(|p: ChannelPin| p.config())
    }

    /// The last output of each actuator.
    pub closed spec fn state_seq(self) -> Seq<State> {
        self.states@
    }

    pub open spec fn wf(self) -> bool {
        let n = self.actuator_seq().len();
        &&& self.controller().wf()
        &&& self.inputs().wf()
        &&& self.pin_seq().len() == n
        &&& self.state_seq().len() == n
        &&& forall|i: int|
            0 <= i < n ==> {
                let a = #[trigger] self.actuator_seq()[i];
                &&& a.input().wf()
                &&& a.input().kind() == A::input_kind()
                &&& a.output() == self.pin_seq()[i]
                &&& self.controller().is_issued(self.pin_seq()[i].slot())
                &&& self.controller().output(self.pin_seq()[i]) == self.state_seq()[i]
                &&& self.state_seq()[i].duty_cycle <= self.controller().max_duty_of(
                    self.pin_seq()[i],
                )
            }
        &&& forall|i: int, j: int|
            0 <= i < j < n ==> (#[trigger] self.pin_seq()[i]).slot() != (#[trigger] self.pin_seq()[j]).slot()
    }

    /// A loop over the timers of `pwm` with no inputs and no actuators yet.
    pub fn new(pwm: Controller) -> (r: Solenoids<A>)
        requires
            pwm.wf(),
        ensures
            r.wf(),
            r.controller() == pwm,
            r.inputs().fields().len() == 0,
            r.inputs().raw_word() == 0,
            r.actuator_seq().len() == 0,
    {
        let r = Solenoids {
            pwm,
            input_array: InputArray::new(),
            actuators: Vec::new(),
            pins: Vec::new(),
            states: Vec::new(),
        };
        proof {
            assert(r.pin_seq() =~= Seq::<Configuration>::empty());
        }
        r
    }

    /// The timers and their outputs.
    pub fn pwm(&self) -> (r: &Controller)
        ensures
            *r == self.controller(),
    {
        &self.pwm
    }

    /// The input word and its fields.
    pub fn input_array(&self) -> (r: &InputArray)
        ensures
            *r == self.inputs(),
    {
        &self.input_array
    }

    /// Number of registered actuators.
    pub fn len(&self) -> (r: usize)
        requires
            self.wf(),
        ensures
            r == self.actuator_seq().len(),
    {
        self.actuators.len()
    }

    /// The channel driven by actuator `i`.
    pub fn pin_config(&self, i: usize) -> (r: Configuration)
        requires
            self.wf(),
            i < self.actuator_seq().len(),
        ensures
            r == self.pin_seq()[i as int],
    {
        self.pins[i].configuration()
    }

    /// The last output of actuator `i`.
    pub fn state(&self, i: usize) -> (r: State)
        requires
            self.wf(),
            i < self.actuator_seq().len(),
        ensures
            r == self.state_seq()[i as int],
    {
        self.states[i]
    }

    /// Registers an actuator of kind `A` driving `channel_config`: a field of its width
    /// class is allocated right after the others and the channel is handed out and turned
    /// off. Fails with `ChannelInUse` where the channel was handed out before, else with
    /// `TooManyInputs` where the field does not fit; a failure changes nothing.
    pub fn add_actuator(&mut self, channel_config: Configuration) -> (r: Result<(), Error>)
        requires
            old(self).wf(),
        ensures
            final(self).wf(),
            r is Ok <==> !old(self).controller().is_issued(channel_config.slot()) && fits(
                old(self).inputs().fields(),
                A::input_kind().width(),
            ),
            old(self).controller().is_issued(channel_config.slot()) ==> r == Err::<(), Error>(
                Error::ChannelInUse,
            ),
            r matches Err(e) ==> e == Error::ChannelInUse || e == Error::TooManyInputs,
            r is Err ==> {
                &&& final(self).controller() == old(self).controller()
                &&& final(self).inputs().fields() == old(self).inputs().fields()
                &&& final(self).inputs().raw_word() == old(self).inputs().raw_word()
                &&& final(self).actuator_seq() == old(self).actuator_seq()
                &&& final(self).pin_seq() == old(self).pin_seq()
                &&& final(self).state_seq() == old(self).state_seq()
            },
            r is Ok ==> {
                let n = old(self).actuator_seq().len() as int;
                let a = final(self).actuator_seq()[n];
                let off = State {
                    enabled: false,
                    duty_cycle: old(self).controller().output(channel_config).duty_cycle,
                };
                &&& final(self).actuator_seq().len() == n + 1
                &&& final(self).actuator_seq().take(n) == old(self).actuator_seq()
                &&& a.output() == channel_config
                &&& a.input().offset() == crate::inputs::used_width(old(self).inputs().fields())
                &&& final(self).inputs().fields() == registered(
                    old(self).inputs().fields(),
                    A::input_kind().width(),
                )
                &&& final(self).inputs().raw_word() == old(self).inputs().raw_word()
                &&& final(self).pin_seq() == old(self).pin_seq().push(channel_config)
                &&& final(self).state_seq() == old(self).state_seq().push(off)
                &&& final(self).controller().outputs() == with_enabled(
                    old(self).controller().outputs(),
                    channel_config.slot(),
                    false,
                )
                &&& final(self).controller().frequency() == old(self).controller().frequency()
                &&& final(self).controller().max_duties() == old(self).controller().max_duties()
                &&& forall|s: nat| #[trigger]
                    final(self).controller().is_issued(s) == (old(self).controller().is_issued(s)
                        || s == channel_config.slot())
            },
    {
        if self.pwm.is_taken(channel_config) {
            return Err(Error::ChannelInUse);
        }
        let actuator: A = match self.input_array.make_actuator(channel_config) {
            Ok(a) => a,
            Err(e) => {
                proof {
                    assert(self.pin_seq() == old(self).pin_seq());
                }
                return Err(e);
            },
        };
        let ghost before = *self;
        let pin = match self.pwm.channel(channel_config) {
            Ok(p) => p,
            Err(e) => return Err(e),
        };
        pin.disable(&mut self.pwm);
        let duty = pin.get_duty(&self.pwm);
        self.actuators.push(actuator);
        self.pins.push(pin);
        self.states.push(State { enabled: false, duty_cycle: duty });
        proof {
            let n = before.actuator_seq().len() as int;
            assert(self.pin_seq() =~= before.pin_seq().push(channel_config));
            assert(self.actuator_seq().take(n) =~= before.actuator_seq());
            assert forall|i: int| 0 <= i < n implies before.pin_seq()[i].slot()
                != channel_config.slot() by {
                let a = old(self).actuator_seq()[i];
                assert(old(self).controller().is_issued(old(self).pin_seq()[i].slot()));
            }
            assert forall|i: int| 0 <= i < n + 1 implies #[trigger] self.actuator_seq()[i]
                == if i < n { before.actuator_seq()[i] } else { actuator } by {}
        }
        Ok(())
    }

    /// One tick. `frame` holds the two bytes of the bus transfer, or `None` where the
    /// transfer failed: then nothing changes and `BusError` is returned. Otherwise the
    /// word they carry becomes the input snapshot and each actuator, in registration
    /// order, computes its next output from its field and its previous output, which is
    /// written to its channel: an enabled output gets its duty before it is turned on, a
    /// disabled one is turned off before its duty is set.
    pub fn update_states(&mut self, frame: Option<[u8; 2]>) -> (r: Result<(), Error>)
        requires
            old(self).wf(),
        ensures
            final(self).wf(),
            frame is None ==> r == Err::<(), Error>(Error::BusError) && *final(self) == *old(self),
            frame is Some ==> r is Ok,
            frame matches Some(bytes) ==> {
                let n = old(self).actuator_seq().len();
                let word = le_word(bytes);
                &&& final(self).inputs().raw_word() == word
                &&& final(self).inputs().fields() == old(self).inputs().fields()
                &&& final(self).actuator_seq() == old(self).actuator_seq()
                &&& final(self).pin_seq() == old(self).pin_seq()
                &&& old(self).controller().same_setup(final(self).controller())
                &&& forall|i: int|
                    0 <= i < n ==> #[trigger] final(self).state_seq()[i] == A::next_state(
                        InputData::snapshot(old(self).actuator_seq()[i].input(), word),
                        old(self).state_seq()[i],
                        old(self).controller().max_duty_of(old(self).pin_seq()[i]),
                    )
                &&& forall|s: nat|
                    s < SLOTS && !drives_slot(old(self).pin_seq(), s) ==> (#[trigger] final(self).controller().outputs()[s as int]) == old(self).controller().outputs()[s as int]
            },
    {
        let bytes = match frame {
            None => return Err(Error::BusError),
            Some(b) => b,
        };
        self.input_array.update(word_from_le_bytes(bytes));
        let ghost start = *self;
        let ghost word = le_word(bytes);
        let n = self.actuators.len();
        proof {
            assert forall|k: int| 0 <= k < n implies self.pwm.output(start.pin_seq()[k])
                == #[trigger] self.states@[k] && self.states@[k].duty_cycle
                <= start.controller().max_duty_of(start.pin_seq()[k]) by {
                let a = old(self).actuator_seq()[k];
            }
        }
        let mut i: usize = 0;
        while i < n
            invariant
                0 <= i <= n,
                n == start.actuator_seq().len(),
                start.controller() == old(self).controller(),
                start.state_seq() == old(self).state_seq(),
                start.actuator_seq() == old(self).actuator_seq(),
                start.pin_seq() == old(self).pin_seq(),
                old(self).wf(),
                self.input_array == start.input_array,
                self.input_array.wf(),
                self.input_array.raw_word() == word,
                self.actuators == start.actuators,
                self.pins == start.pins,
                self.pwm.wf(),
                start.controller().same_setup(self.pwm),
                self.states@.len() == n,
                forall|k: int|
                    0 <= k < i ==> #[trigger] self.states@[k] == A::next_state(
                        InputData::snapshot(start.actuator_seq()[k].input(), word),
                        start.state_seq()[k],
                        start.controller().max_duty_of(start.pin_seq()[k]),
                    ),
                forall|k: int|
                    i <= k < n ==> #[trigger] self.states@[k] == start.state_seq()[k],
                forall|k: int|
                    0 <= k < n ==> self.pwm.output(start.pin_seq()[k]) == #[trigger] self.states@[k]
                        && self.states@[k].duty_cycle <= start.controller().max_duty_of(
                        start.pin_seq()[k],
                    ),
                forall|s: nat|
                    s < SLOTS && !drives_slot(start.pin_seq().take(i as int), s) ==> #[trigger] self.pwm.outputs()[s as int]
                        == start.controller().outputs()[s as int],
            decreases n - i,
        {
            let ghost cfg = start.pin_seq()[i as int];
            let ghost before = self.pwm;
            let data = self.input_array.read(self.actuators[i].input_config());
            let max = self.pins[i].get_max_duty(&self.pwm);
            let next = self.actuators[i].update_state(&data, self.states[i], max);
            if next.enabled {
                self.pins[i].set_duty(&mut self.pwm, next.duty_cycle);
                self.pins[i].enable(&mut self.pwm);
            } else {
                self.pins[i].disable(&mut self.pwm);
                self.pins[i].set_duty(&mut self.pwm, next.duty_cycle);
            }
            self.states.set(i, next);
            proof {
                assert(self.pwm.outputs() =~= before.outputs().update(cfg.slot() as int, next));
                assert forall|k: int| 0 <= k < n && k != i implies start.pin_seq()[k].slot()
                    != cfg.slot() by {
                    if k < i {
                        let x = start.pin_seq()[k];
                        let y = start.pin_seq()[i as int];
                    } else {
                        let x = start.pin_seq()[i as int];
                        let y = start.pin_seq()[k];
                    }
                }
                assert forall|s: nat|
                    s < SLOTS && !drives_slot(start.pin_seq().take(i + 1), s) implies #[trigger] self.pwm.outputs()[s as int]
                        == start.controller().outputs()[s as int] by {
                    assert(start.pin_seq().take(i + 1)[i as int] == cfg);
                    if drives_slot(start.pin_seq().take(i as int), s) {
                        let k = choose|k: int| 0 <= k < i && (#[trigger] start.pin_seq().take(i as int)[k]).slot() == s;
                        assert(start.pin_seq().take(i + 1)[k] == start.pin_seq().take(i as int)[k]);
                    }
                }
            }
            i = i + 1;
        }
        proof {
            assert(start.pin_seq().take(n as int) =~= start.pin_seq());
        }
        Ok(())
    }
}

} // verus!
