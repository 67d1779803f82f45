use vjoy::{
    AppError, AxisSlot, ButtonState, Device, DeviceConfiguration, Error, FourWayHat, HatState,
    CONTINUOUS_CENTERED,
};

fn slot(name: &str, usage: u32, present: i32) -> AxisSlot {
    AxisSlot { display_name: name.to_string(), hid_usage: usage, present }
}

fn config(buttons: i32, slots: Vec<AxisSlot>, discrete: i32, continuous: i32) -> DeviceConfiguration {
    DeviceConfiguration {
        button_count: buttons,
        axis_slots: slots,
        discrete_hat_count: discrete,
        continuous_hat_count: continuous,
    }
}

/// Device 1 with two buttons, one axis and one four-way hat.
fn small_device() -> Device {
    Device::from_configuration(1, &config(2, vec![slot("X", 0x30, 1)], 1, 0))
}

#[test]
fn example_small_device() {
    let mut d = small_device();
    d.set_button(1, ButtonState::Pressed).unwrap();
    assert_eq!(d.get_button(1).unwrap(), ButtonState::Pressed);
    match d.set_button(3, ButtonState::Pressed) {
        Err(Error::App(AppError::ButtonNotFound(1, 3))) => {}
        other => panic!("unexpected {:?}", other),
    }
    d.set_axis(1, 2147483647).unwrap();
    assert_eq!(d.get_axis(1).unwrap(), 2147483647);
    d.reset_all().unwrap();
    assert_eq!(d.get_button(1).unwrap(), ButtonState::Released);
    assert_eq!(d.get_axis(1).unwrap(), 0);
    assert_eq!(d.get_hat(1).unwrap(), HatState::Discrete(FourWayHat::Centered));
}

#[test]
fn set_then_get_returns_value() {
    let mut d = Device::from_configuration(3, &config(5, vec![slot("X", 0x30, 1), slot("Y", 0x31, 1)], 2, 0));
    d.set_button(5, ButtonState::Pressed).unwrap();
    d.set_axis(2, i32::MIN).unwrap();
    d.set_hat(2, HatState::Discrete(FourWayHat::West)).unwrap();
    assert_eq!(d.get_button(5).unwrap(), ButtonState::Pressed);
    assert_eq!(d.get_axis(2).unwrap(), i32::MIN);
    assert_eq!(d.get_hat(2).unwrap(), HatState::Discrete(FourWayHat::West));
    // the neighbours keep their values
    assert_eq!(d.get_button(4).unwrap(), ButtonState::Released);
    assert_eq!(d.get_axis(1).unwrap(), 0);
    assert_eq!(d.get_hat(1).unwrap(), HatState::Discrete(FourWayHat::Centered));
}

#[test]
fn component_reset_gives_rest_value() {
    let mut d = Device::from_configuration(2, &config(1, vec![slot("X", 0x30, 1)], 0, 1));
    for b in d.buttons_mut() {
        b.set(ButtonState::Pressed);
        b.reset();
        assert_eq!(b.get(), ButtonState::Released);
    }
    for a in d.axes_mut() {
        a.set(-5);
        a.reset();
        assert_eq!(a.get(), 0);
    }
    for h in d.hats_mut() {
        h.set(HatState::Continuous(9000));
        h.reset();
        assert_eq!(h.get(), HatState::Continuous(CONTINUOUS_CENTERED));
        assert_eq!(h.get(), HatState::Continuous(u32::MAX));
    }
}

#[test]
fn set_out_of_range_fails_and_changes_nothing() {
    let mut d = small_device();
    d.set_button(2, ButtonState::Pressed).unwrap();
    match d.set_button(0, ButtonState::Released) {
        Err(Error::App(AppError::ButtonNotFound(1, 0))) => {}
        other => panic!("unexpected {:?}", other),
    }
    match d.set_axis(0, 7) {
        Err(Error::App(AppError::AxisNotFound(1, 0))) => {}
        other => panic!("unexpected {:?}", other),
    }
    match d.set_axis(2, 7) {
        Err(Error::App(AppError::AxisNotFound(1, 2))) => {}
        other => panic!("unexpected {:?}", other),
    }
    match d.set_hat(0, HatState::Discrete(FourWayHat::North)) {
        Err(Error::App(AppError::HatNotFound(1, 0))) => {}
        other => panic!("unexpected {:?}", other),
    }
    match d.set_hat(2, HatState::Discrete(FourWayHat::North)) {
        Err(Error::App(AppError::HatNotFound(1, 2))) => {}
        other => panic!("unexpected {:?}", other),
    }
    match d.set_button(255, ButtonState::Released) {
        Err(Error::App(AppError::ButtonNotFound(1, 255))) => {}
        other => panic!("unexpected {:?}", other),
    }
    assert_eq!(d.get_button(1).unwrap(), ButtonState::Released);
    assert_eq!(d.get_button(2).unwrap(), ButtonState::Pressed);
    assert_eq!(d.get_axis(1).unwrap(), 0);
    assert_eq!(d.get_hat(1).unwrap(), HatState::Discrete(FourWayHat::Centered));
    assert_eq!(d.num_buttons(), 2);
}

#[test]
fn get_out_of_range_fails() {
    let d = small_device();
    assert!(matches!(d.get_button(3), Err(Error::App(AppError::ButtonNotFound(1, 3)))));
    assert!(matches!(d.get_axis(9), Err(Error::App(AppError::AxisNotFound(1, 9)))));
    assert!(matches!(d.get_hat(0), Err(Error::App(AppError::HatNotFound(1, 0)))));
}

#[test]
fn reset_all_twice_is_reset_all_once() {
    let mut d = Device::from_configuration(4, &config(3, vec![slot("X", 0x30, 1), slot("Y", 0x31, 1)], 0, 2));
    d.set_button(2, ButtonState::Pressed).unwrap();
    d.set_axis(1, 99).unwrap();
    d.set_hat(2, HatState::Continuous(18000)).unwrap();
    d.reset_all().unwrap();
    let once = d.clone();
    d.reset_all().unwrap();
    for id in 1..=3u8 {
        assert_eq!(d.get_button(id).unwrap(), once.get_button(id).unwrap());
        assert_eq!(d.get_button(id).unwrap(), ButtonState::Released);
    }
    for id in 1..=2u32 {
        assert_eq!(d.get_axis(id).unwrap(), once.get_axis(id).unwrap());
        assert_eq!(d.get_axis(id).unwrap(), 0);
    }
    for id in 1..=2u8 {
        assert_eq!(d.get_hat(id).unwrap(), once.get_hat(id).unwrap());
        assert_eq!(d.get_hat(id).unwrap(), HatState::Continuous(u32::MAX));
    }
}

#[test]
fn hat_type_follows_first_hat() {
    let none = Device::from_configuration(1, &config(0, vec![], 0, 0));
    assert_eq!(none.num_hats(), 0);
    assert_eq!(none.hat_type(), HatState::Discrete(FourWayHat::Centered));
    let cont = Device::from_configuration(1, &config(0, vec![], 0, 3));
    assert_eq!(cont.hat_type(), HatState::Continuous(u32::MAX));
    let disc = Device::from_configuration(1, &config(0, vec![], 4, 3));
    assert_eq!(disc.num_hats(), 4);
    assert_eq!(disc.hat_type(), HatState::Discrete(FourWayHat::Centered));
}

#[test]
fn configuration_builds_components_in_id_order() {
    let slots = vec![
        slot("X", 0x30, 1),
        slot("Y", 0x31, 0),
        slot("Z", 0x32, 1),
        slot("Rx", 0x33, 2),
    ];
    let mut d = Device::from_configuration(7, &config(3, slots, 0, 0));
    assert_eq!(d.id(), 7);
    let ids: Vec<u8> = d.buttons().iter().map(|b| b.id()).collect();
    assert_eq!(ids, vec![1, 2, 3]);
    let axis_ids: Vec<u32> = d.axes().iter().map(|a| a.id()).collect();
    assert_eq!(axis_ids, vec![1, 3]);
    let axes = d.axes_mut();
    assert_eq!(axes[1].display_name(), "Z");
    assert_eq!(axes[1].hid_usage(), 0x32);
    // axis IDs are positions: ID 2 is the second present axis, the one in slot 3
    d.set_axis(2, 11).unwrap();
    assert_eq!(d.axes()[1].get(), 11);
}

#[test]
fn configuration_counts_are_capped() {
    let d = Device::from_configuration(1, &config(300, vec![], 9, 0));
    assert_eq!(d.num_buttons(), 128);
    assert_eq!(d.buttons()[127].id(), 128);
    assert_eq!(d.num_hats(), 4);
    let neg = Device::from_configuration(1, &config(-1, vec![], -2, 1));
    assert_eq!(neg.num_buttons(), 0);
    assert_eq!(neg.num_hats(), 1);
    assert_eq!(neg.hat_type(), HatState::Continuous(u32::MAX));
    let slots: Vec<AxisSlot> = (0..20).map(|k| slot("A", 0x30 + k, 1)).collect();
    let many = Device::from_configuration(1, &config(0, slots, 0, 0));
    assert_eq!(many.num_axes(), 16);
}

#[test]
fn driver_values() {
    assert_eq!(ButtonState::Pressed.driver_value(), 1);
    assert_eq!(ButtonState::Released.driver_value(), 0);
    assert_eq!(ButtonState::default(), ButtonState::Released);
    assert_eq!(FourWayHat::Centered.driver_value(), -1);
    assert_eq!(FourWayHat::North.driver_value(), 0);
    assert_eq!(FourWayHat::East.driver_value(), 1);
    assert_eq!(FourWayHat::South.driver_value(), 2);
    assert_eq!(FourWayHat::West.driver_value(), 3);
    assert_eq!(HatState::default(), HatState::Discrete(FourWayHat::Centered));
    assert_eq!(FourWayHat::default(), FourWayHat::Centered);
}
