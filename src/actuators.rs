//! Actuators: pure maps from the lines of an input field to a PWM output state.
use crate::inputs::{fits, registered, used_width, Error, InputArray, InputConfig, InputData, InputType};
use crate::pwm::{Configuration, State};
use vstd::prelude::*;

verus! {

/// An output driven from one input field. Each kind reads a field of a fixed width
/// class and computes the next output from the field's lines and the previous output.
pub trait Actuator: Sized {
    /// The width class of the field the actuator reads.
    spec fn input_kind() -> InputType;

    /// The output after the snapshot `data`, given the previous output `prev` and the
    /// largest duty of the channel.
    spec fn next_state(data: InputData, prev: State, max_duty: u32) -> State;

    /// The field the actuator reads.
    spec fn input(&self) -> InputConfig;

    /// The channel the actuator drives.
    spec fn output(&self) -> Configuration;

    /// Running the actuator a second time on the same snapshot, with the same largest
    /// duty, gives the output of the first run again.
    proof fn lemma_next_state_stable(data: InputData, prev: State, max_duty: u32)
        ensures
            Self::next_state(data, Self::next_state(data, prev, max_duty), max_duty)
                == Self::next_state(data, prev, max_duty),
    ;

    fn new(input_config: InputConfig, pwm_config: Configuration) -> (r: Self)
        ensures
            r.input() == input_config,
            r.output() == pwm_config,
    ;

    fn input_type() -> (r: InputType)
        ensures
            r == Self::input_kind(),
    ;

    fn input_config(&self) -> (r: &InputConfig)
        ensures
            *r == self.input(),
    ;

    fn pwm_config(&self) -> (r: &Configuration)
        ensures
            *r == self.output(),
    ;

    /// The next output. An enabled output never asks for more than the largest duty, nor
    /// does a disabled one when the previous output did not.
    fn update_state(&self, data: &InputData, curr_state: State, max_duty: u32) -> (r: State)
        requires
            data.wf(),
            data.config().kind() == Self::input_kind(),
        ensures
            r == Self::next_state(*data, curr_state, max_duty),
            r.enabled ==> r.duty_cycle <= max_duty,
            curr_state.duty_cycle <= max_duty ==> r.duty_cycle <= max_duty,
    ;
}

/// One line: on at the largest duty while the line is high, off otherwise.
pub open spec fn basic_next(line1: bool, prev: State, max_duty: u32) -> State {
    if line1 {
        State { enabled: true, duty_cycle: max_duty }
    } else {
        State { enabled: false, duty_cycle: prev.duty_cycle }
    }
}

/// Two lines: half duty while the second is high, whatever the first; else the largest
/// duty while the first is high; else off.
pub open spec fn two_state_next(line1: bool, line2: bool, prev: State, max_duty: u32) -> State {
    if line2 {
        State { enabled: true, duty_cycle: (max_duty / 2) as u32 }
    } else if line1 {
        State { enabled: true, duty_cycle: max_duty }
    } else {
        State { enabled: false, duty_cycle: prev.duty_cycle }
    }
}

/// An actuator that follows one input line.
#[derive(Debug, Clone, Copy, PartialEq, Eq, Structural)]
pub struct Basic {
    input_config: InputConfig,
    pwm_config: Configuration,
}

impl Actuator for Basic {
    open spec fn input_kind() -> InputType {
        InputType::Single
    }

    open spec fn next_state(data: InputData, prev: State, max_duty: u32) -> State {
        basic_next(data.line(0), prev, max_duty)
    }

    closed spec fn input(&self) -> InputConfig {
        self.input_config
    }

    closed spec fn output(&self) -> Configuration {
        self.pwm_config
    }

    proof fn lemma_next_state_stable(data: InputData, prev: State, max_duty: u32) {
        let once = Self::next_state(data, prev, max_duty);
        assert(Self::next_state(data, once, max_duty) == once);
    }

    fn new(input_config: InputConfig, pwm_config: Configuration) -> (r: Self) {
        Basic { input_config, pwm_config }
    }

    fn input_type() -> (r: InputType) {
        InputType::Single
    }

    fn input_config(&self) -> (r: &InputConfig) {
        &self.input_config
    }

    fn pwm_config(&self) -> (r: &Configuration) {
        &self.pwm_config
    }

    fn update_state(&self, data: &InputData, curr_state: State, max_duty: u32) -> (r: State) {
        if data.is_input1_high() {
            State { enabled: true, duty_cycle: max_duty }
        } else {
            State { enabled: false, duty_cycle: curr_state.duty_cycle }
        }
    }
}

/// An actuator with two levels, driven by two input lines.
#[derive(Debug, Clone, Copy, PartialEq, Eq, Structural)]
pub struct TwoStateActuator {
    input_config: InputConfig,
    pwm_config: Configuration,
}

impl Actuator for TwoStateActuator {
    open spec fn input_kind() -> InputType {
        InputType::Double
    }

    open spec fn next_state(data: InputData, prev: State, max_duty: u32) -> State {
        two_state_next(data.line(0), data.line(1), prev, max_duty)
    }

    closed spec fn input(&self) -> InputConfig {
        self.input_config
    }

    closed spec fn output(&self) -> Configuration {
        self.pwm_config
    }

    proof fn lemma_next_state_stable(data: InputData, prev: State, max_duty: u32) {
        let once = Self::next_state(data, prev, max_duty);
        assert(Self::next_state(data, once, max_duty) == once);
    }

    fn new(input_config: InputConfig, pwm_config: Configuration) -> (r: Self) {
        TwoStateActuator { input_config, pwm_config }
    }

    fn input_type() -> (r: InputType) {
        InputType::Double
    }

    fn input_config(&self) -> (r: &InputConfig) {
        &self.input_config
    }

    fn pwm_config(&self) -> (r: &Configuration) {
        &self.pwm_config
    }

    fn update_state(&self, data: &InputData, curr_state: State, max_duty: u32) -> (r: State) {
        if data.is_input2_high() {
            State { enabled: true, duty_cycle: max_duty / 2 }
        } else if data.is_input1_high() {
            State { enabled: true, duty_cycle: max_duty }
        } else {
            State { enabled: false, duty_cycle: curr_state.duty_cycle }
        }
    }
}

/// Whatever the previous output, a high line turns a basic actuator on at the largest
/// duty, and a low line turns it off with the previous duty kept.
pub proof fn lemma_basic_law(data: InputData, prev: State, max_duty: u32)
    requires
        data.config().kind() == InputType::Single,
    ensures
        data.line(0) ==> Basic::next_state(data, prev, max_duty) == (State {
            enabled: true,
            duty_cycle: max_duty,
        }),
        !data.line(0) ==> !Basic::next_state(data, prev, max_duty).enabled && Basic::next_state(
            data,
            prev,
            max_duty,
        ).duty_cycle == prev.duty_cycle,
{
}

/// Whatever the previous output: a high second line gives half the largest duty, whatever
/// the first line; a low second line and a high first line give the largest duty; two low
/// lines turn the output off.
pub proof fn lemma_two_state_law(data: InputData, prev: State, max_duty: u32)
    requires
        data.config().kind() == InputType::Double,
    ensures
        data.line(1) ==> TwoStateActuator::next_state(data, prev, max_duty) == (State {
            enabled: true,
            duty_cycle: (max_duty / 2) as u32,
        }),
        !data.line(1) && data.line(0) ==> TwoStateActuator::next_state(data, prev, max_duty) == (
        State { enabled: true, duty_cycle: max_duty }),
        !data.line(1) && !data.line(0) ==> !TwoStateActuator::next_state(
            data,
            prev,
            max_duty,
        ).enabled,
{
}

impl InputArray {
    /// Allocates a field of the class that `A` reads and makes an actuator on it that
    /// drives `channel_config`. Fails as `get_input` does, changing nothing.
    pub fn make_actuator<A: Actuator>(&mut self, channel_config: Configuration) -> (r: Result<
        A,
        Error,
    >)
        requires
            old(self).wf(),
        ensures
            final(self).wf(),
            final(self).raw_word() == old(self).raw_word(),
            final(self).fields() == registered(old(self).fields(), A::input_kind().width()),
            r is Ok <==> fits(old(self).fields(), A::input_kind().width()),
            r matches Ok(a) ==> a.input().wf() && a.input().kind() == A::input_kind()
                && a.input().offset() == used_width(old(self).fields()) && a.output()
                == channel_config,
            r matches Err(e) ==> e == Error::TooManyInputs,
    {
        let config = self.get_input(A::input_type())?;
        Ok(A::new(config, channel_config))
    }
}

} // verus!
