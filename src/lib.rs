//! Input decoding and PWM actuation for a solenoid driver node.
//!
//! A bank of digital inputs arrives as one 16-bit word. Fixed-width bit
//! fields are allocated inside that word, each actuator turns the lines of
//! its field into a PWM output state, and a channel controller owns the PWM
//! timers, hands out each sub-channel at most once and keeps the duty and
//! enable state of every sub-channel apart.
pub mod actuators;
pub mod control;
pub mod inputs;
pub mod pwm;

pub use actuators::{Actuator, Basic, TwoStateActuator};
pub use control::{word_from_le_bytes, Solenoids};
pub use inputs::{Error, InputArray, InputConfig, InputData, InputType};
pub use pwm::{
    AllChannels, Channel, ChannelPin, Configuration, Controller, State, Tc3Channels, Tcc0Channels,
    Tcc1Channels, Tcc2Channels,
};
