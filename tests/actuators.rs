use solenoids::{Actuator, Basic, Configuration, Channel, InputArray, State, TwoStateActuator};

#[test]
fn basic_follows_its_line() {
    let mut inputs = InputArray::new();
    let act: Basic = inputs.make_actuator(Configuration::Tc3).unwrap();
    assert_eq!(*act.pwm_config(), Configuration::Tc3);
    assert_eq!(act.input_config().start_offset(), 0);
    let prev = State { enabled: false, duty_cycle: 77 };

    inputs.update(1);
    let on = act.update_state(&inputs.read(act.input_config()), prev, 1000);
    assert_eq!(on, State { enabled: true, duty_cycle: 1000 });

    inputs.update(0);
    let off = act.update_state(&inputs.read(act.input_config()), on, 1000);
    assert_eq!(off, State { enabled: false, duty_cycle: 1000 });
    let off_again = act.update_state(&inputs.read(act.input_config()), prev, 1000);
    assert_eq!(off_again, State { enabled: false, duty_cycle: 77 });
}

#[test]
fn two_state_levels() {
    let mut inputs = InputArray::new();
    inputs.get_input(solenoids::InputType::Single).unwrap();
    let act: TwoStateActuator = inputs.make_actuator(Configuration::Tcc1(Channel::_1)).unwrap();
    assert_eq!(act.input_config().start_offset(), 1);
    let prev = State { enabled: true, duty_cycle: 5 };

    inputs.update(0b100);
    let half = act.update_state(&inputs.read(act.input_config()), prev, 1001);
    assert_eq!(half, State { enabled: true, duty_cycle: 500 });

    inputs.update(0b110);
    let half_too = act.update_state(&inputs.read(act.input_config()), prev, 1001);
    assert_eq!(half_too, State { enabled: true, duty_cycle: 500 });

    inputs.update(0b010);
    let full = act.update_state(&inputs.read(act.input_config()), prev, 1001);
    assert_eq!(full, State { enabled: true, duty_cycle: 1001 });

    inputs.update(0b001);
    let off = act.update_state(&inputs.read(act.input_config()), prev, 1001);
    assert!(!off.enabled);
}

#[test]
fn actuator_reports_its_input_type() {
    assert_eq!(Basic::input_type(), solenoids::InputType::Single);
    assert_eq!(TwoStateActuator::input_type(), solenoids::InputType::Double);
}

#[test]
fn make_actuator_fails_when_inputs_are_full() {
    let mut inputs = InputArray::new();
    for _ in 0..8 {
        inputs.get_input(solenoids::InputType::Double).unwrap();
    }
    let r: Result<Basic, solenoids::Error> = inputs.make_actuator(Configuration::Tc3);
    assert_eq!(r, Err(solenoids::Error::TooManyInputs));
    assert_eq!(inputs.size_used(), 16);
}
