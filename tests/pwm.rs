use solenoids::{Channel, Configuration, Controller, Error, State};

fn controller() -> Controller {
    Controller::new(100, [1000, 2000, 3000, 255])
}

#[test]
fn channels_of_one_timer_are_isolated() {
    let mut pwm = controller();
    let a = pwm.tcc0_channel(Channel::_0).unwrap();
    let b = pwm.tcc0_channel(Channel::_1).unwrap();
    b.set_duty(&mut pwm, 300);
    b.enable(&mut pwm);

    a.set_duty(&mut pwm, 900);
    a.enable(&mut pwm);
    assert_eq!(b.get_duty(&pwm), 300);
    assert!(b.is_enabled(&pwm));

    a.disable(&mut pwm);
    assert_eq!(b.get_duty(&pwm), 300);
    assert!(b.is_enabled(&pwm));
    assert_eq!(a.get_duty(&pwm), 900);
    assert!(!a.is_enabled(&pwm));
}

#[test]
fn a_channel_is_handed_out_once() {
    let mut pwm = controller();
    let _pin = pwm.channel(Configuration::Tcc2(Channel::_1)).unwrap();
    assert!(pwm.is_taken(Configuration::Tcc2(Channel::_1)));
    assert!(!pwm.is_taken(Configuration::Tcc2(Channel::_0)));
    assert_eq!(pwm.tcc2_channel(Channel::_1).err(), Some(Error::ChannelInUse));
    assert!(pwm.tcc2_channel(Channel::_0).is_ok());
    assert!(pwm.tc3_channel().is_ok());
    assert_eq!(pwm.tc3_channel().err(), Some(Error::ChannelInUse));
}

#[test]
fn max_duty_is_per_timer() {
    let mut pwm = controller();
    let t1 = pwm.tcc1_channel(Channel::_0).unwrap();
    let t3 = pwm.tc3_channel().unwrap();
    assert_eq!(t1.get_max_duty(&pwm), 2000);
    assert_eq!(t3.get_max_duty(&pwm), 255);
    assert_eq!(pwm.period(), 100);
}

#[test]
fn new_controller_outputs_are_off() {
    let pwm = controller();
    assert_eq!(
        pwm.output_of(Configuration::Tcc0(Channel::_3)),
        State { enabled: false, duty_cycle: 0 }
    );
}

#[test]
fn make_channels_hands_out_the_board_outputs() {
    let mut pwm = controller();
    let (tcc0, tcc1, tcc2, tc3) = pwm.make_channels().unwrap();
    assert_eq!(tcc0.cc2.configuration(), Configuration::Tcc0(Channel::_2));
    assert_eq!(tcc1.cc1.configuration(), Configuration::Tcc1(Channel::_1));
    assert_eq!(tcc2.cc0.configuration(), Configuration::Tcc2(Channel::_0));
    assert_eq!(tc3.cc0.configuration(), Configuration::Tc3);
    assert!(pwm.is_taken(Configuration::Tcc1(Channel::_0)));
    assert!(!pwm.is_taken(Configuration::Tcc1(Channel::_2)));
    assert!(pwm.make_channels().is_err());
    assert!(pwm.tcc1_channel(Channel::_2).is_ok());
}

#[test]
fn make_channels_refuses_when_one_is_taken() {
    let mut pwm = controller();
    let _pin = pwm.tcc0_channel(Channel::_3).unwrap();
    assert_eq!(pwm.make_channels().err(), Some(Error::ChannelInUse));
    assert!(!pwm.is_taken(Configuration::Tcc0(Channel::_0)));
    assert!(!pwm.is_taken(Configuration::Tc3));
}

#[test]
fn slot_and_timer_indices() {
    assert_eq!(Configuration::Tcc0(Channel::_2).slot_index(), 2);
    assert_eq!(Configuration::Tcc1(Channel::_1).slot_index(), 5);
    assert_eq!(Configuration::Tcc2(Channel::_3).slot_index(), 11);
    assert_eq!(Configuration::Tc3.slot_index(), 12);
    assert_eq!(Configuration::Tcc2(Channel::_0).timer_index(), 2);
    assert_eq!(Channel::_3.index(), 3);
}
