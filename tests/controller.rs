use vjoy::{
    acquisition_result, sync_result, AppError, AxisSlot, ButtonState, DeviceConfiguration,
    Discovery, DiscoveryAction, DiscoveryEvent, DriverCommand, Error, FFIError, FourWayHat,
    HatState, SyncPlan, VJoy,
};

fn config(buttons: i32, axes: usize, discrete: i32, continuous: i32) -> DeviceConfiguration {
    let names = ["X", "Y", "Z", "Rx", "Ry", "Rz", "Slider", "Dial/Slider2"];
    let axis_slots = (0..8)
        .map(|k| AxisSlot {
            display_name: names[k].to_string(),
            hid_usage: 0x30 + k as u32,
            present: if k < axes { 1 } else { 0 },
        })
        .collect();
    DeviceConfiguration {
        button_count: buttons,
        axis_slots,
        discrete_hat_count: discrete,
        continuous_hat_count: continuous,
    }
}

/// Runs discovery against a driver in which the devices listed are acquirable, with these
/// configurations; every other ID refuses acquisition.
fn discover(mut acquirable: Vec<(u32, DeviceConfiguration)>) -> VJoy {
    let mut discovery = Discovery::new();
    loop {
        match discovery.next_action() {
            DiscoveryAction::Acquire(id) => {
                let answer = if acquirable.iter().any(|(d, _)| *d == id) { 1 } else { 0 };
                discovery = discovery.handle(DiscoveryEvent::Acquisition(answer));
            }
            DiscoveryAction::QueryConfiguration(id) => {
                let pos = acquirable.iter().position(|(d, _)| *d == id).unwrap();
                let (_, c) = acquirable.remove(pos);
                discovery = discovery.handle(DiscoveryEvent::Configuration(c));
            }
            DiscoveryAction::Finished => break,
        }
    }
    discovery.into_controller()
}

#[test]
fn example_configuration_lookup() {
    let one = discover(vec![(3, config(2, 1, 1, 0)), (5, config(8, 2, 0, 0))]);
    assert_eq!(one.get_id_for_configuration(2, 1, 1).unwrap(), 3);

    let none = discover(vec![(5, config(8, 2, 0, 0))]);
    match none.get_id_for_configuration(2, 1, 1) {
        Err(Error::App(AppError::DeviceConfigNotFound(2, 1, 1))) => {}
        other => panic!("unexpected {:?}", other),
    }

    let two = discover(vec![(1, config(2, 1, 1, 0)), (9, config(2, 1, 1, 0))]);
    match two.get_id_for_configuration(2, 1, 1) {
        Err(Error::App(AppError::DeviceConfigMultipleFound(2, 1, 1))) => {}
        other => panic!("unexpected {:?}", other),
    }
}

#[test]
fn discovery_probes_every_id_and_skips_refused_ones() {
    let mut discovery = Discovery::new();
    assert_eq!(discovery.next_action(), DiscoveryAction::Acquire(1));
    discovery = discovery.handle(DiscoveryEvent::Acquisition(0));
    assert_eq!(discovery.next_action(), DiscoveryAction::Acquire(2));
    // an answer that does not fit the action changes nothing
    discovery = discovery.handle(DiscoveryEvent::Configuration(config(1, 0, 0, 0)));
    assert_eq!(discovery.next_action(), DiscoveryAction::Acquire(2));
    discovery = discovery.handle(DiscoveryEvent::Acquisition(1));
    assert_eq!(discovery.next_action(), DiscoveryAction::QueryConfiguration(2));
    discovery = discovery.handle(DiscoveryEvent::Acquisition(1));
    assert_eq!(discovery.next_action(), DiscoveryAction::QueryConfiguration(2));
    discovery = discovery.handle(DiscoveryEvent::Configuration(config(4, 2, 1, 0)));
    let mut probed = vec![1, 2];
    while let DiscoveryAction::Acquire(id) = discovery.next_action() {
        probed.push(id);
        discovery = discovery.handle(DiscoveryEvent::Acquisition(2));
    }
    assert_eq!(probed, (1..=16).collect::<Vec<u32>>());
    assert_eq!(discovery.next_action(), DiscoveryAction::Finished);
    let vjoy = discovery.into_controller();
    assert_eq!(vjoy.device_ids(), vec![2]);
    let d = vjoy.get_device_state(2).unwrap();
    assert_eq!(d.num_buttons(), 4);
    assert_eq!(d.num_axes(), 2);
    assert_eq!(d.num_hats(), 1);
}

#[test]
fn device_ids_ascend() {
    let vjoy = discover(vec![(16, config(1, 0, 0, 0)), (1, config(1, 0, 0, 0)), (7, config(1, 0, 0, 0))]);
    assert_eq!(vjoy.device_ids(), vec![1, 7, 16]);
}

#[test]
fn get_device_state_unknown_id_fails() {
    let vjoy = discover(vec![(1, config(1, 0, 0, 0))]);
    assert!(matches!(vjoy.get_device_state(2), Err(Error::App(AppError::DeviceNotFound(2)))));
    assert!(matches!(vjoy.get_device_state(0), Err(Error::App(AppError::DeviceNotFound(0)))));
}

#[test]
fn snapshot_changes_stay_local() {
    let vjoy = discover(vec![(1, config(2, 1, 1, 0))]);
    let mut copy = vjoy.get_device_state(1).unwrap();
    copy.set_button(1, ButtonState::Pressed).unwrap();
    copy.set_axis(1, 42).unwrap();
    copy.set_hat(1, HatState::Discrete(FourWayHat::South)).unwrap();
    let again = vjoy.get_device_state(1).unwrap();
    assert_eq!(again.get_button(1).unwrap(), ButtonState::Released);
    assert_eq!(again.get_axis(1).unwrap(), 0);
    assert_eq!(again.get_hat(1).unwrap(), HatState::Discrete(FourWayHat::Centered));
}

#[test]
fn update_replaces_canonical_state() {
    let mut vjoy = discover(vec![(1, config(2, 1, 1, 0)), (2, config(3, 0, 0, 0))]);
    let mut copy = vjoy.get_device_state(1).unwrap();
    copy.set_button(2, ButtonState::Pressed).unwrap();
    copy.set_axis(1, -7).unwrap();
    copy.set_hat(1, HatState::Discrete(FourWayHat::East)).unwrap();
    vjoy.update_device_state(&copy).unwrap();
    let now = vjoy.get_device_state(1).unwrap();
    assert_eq!(now.get_button(1).unwrap(), ButtonState::Released);
    assert_eq!(now.get_button(2).unwrap(), ButtonState::Pressed);
    assert_eq!(now.get_axis(1).unwrap(), -7);
    assert_eq!(now.get_hat(1).unwrap(), HatState::Discrete(FourWayHat::East));
    let other = vjoy.get_device_state(2).unwrap();
    assert_eq!(other.num_buttons(), 3);
    assert_eq!(other.get_button(1).unwrap(), ButtonState::Released);
    assert_eq!(vjoy.devices_cloned().len(), 2);
}

#[test]
fn update_plans_one_command_per_component() {
    let mut vjoy = discover(vec![(4, config(2, 2, 0, 1))]);
    let mut copy = vjoy.get_device_state(4).unwrap();
    copy.set_button(1, ButtonState::Pressed).unwrap();
    copy.set_axis(2, i32::MAX).unwrap();
    copy.set_hat(1, HatState::Continuous(9000)).unwrap();
    let plan: SyncPlan = vjoy.update_device_state(&copy).unwrap();
    assert_eq!(
        plan.buttons,
        vec![
            DriverCommand::SetButton { device_id: 4, button_id: 1, value: 1 },
            DriverCommand::SetButton { device_id: 4, button_id: 2, value: 0 },
        ]
    );
    assert_eq!(
        plan.axes,
        vec![
            DriverCommand::SetAxis { device_id: 4, axis_id: 1, hid_usage: 0x30, value: 0 },
            DriverCommand::SetAxis { device_id: 4, axis_id: 2, hid_usage: 0x31, value: i32::MAX },
        ]
    );
    assert_eq!(
        plan.hats,
        vec![DriverCommand::SetContinuousHat { device_id: 4, hat_id: 1, value: 9000 }]
    );
    copy.set_hat(1, HatState::Discrete(FourWayHat::West)).unwrap();
    let plan = vjoy.update_device_state(&copy).unwrap();
    assert_eq!(
        plan.hats,
        vec![DriverCommand::SetDiscreteHat { device_id: 4, hat_id: 1, value: 3 }]
    );
}

#[test]
fn update_unknown_device_fails_and_changes_nothing() {
    let mut vjoy = discover(vec![(1, config(1, 0, 0, 0))]);
    let foreign = discover(vec![(2, config(1, 0, 0, 0))]).get_device_state(2).unwrap();
    match vjoy.update_device_state(&foreign) {
        Err(Error::App(AppError::DeviceNotFound(2))) => {}
        other => panic!("unexpected {:?}", other),
    }
    assert_eq!(vjoy.device_ids(), vec![1]);
}

#[test]
fn command_failures_carry_status() {
    let b = DriverCommand::SetButton { device_id: 3, button_id: 9, value: 1 };
    let a = DriverCommand::SetAxis { device_id: 3, axis_id: 2, hid_usage: 0x31, value: 5 };
    let d = DriverCommand::SetDiscreteHat { device_id: 3, hat_id: 1, value: 0 };
    let c = DriverCommand::SetContinuousHat { device_id: 3, hat_id: 4, value: 100 };
    assert!(matches!(b.failure(2), FFIError::ButtonCouldNotBeSet(3, 9, 2)));
    assert!(matches!(a.failure(3), FFIError::AxisCouldNotBeSet(3, 2, 3)));
    assert!(matches!(d.failure(1), FFIError::HatCouldNotBeSet(3, 1, 1)));
    assert!(matches!(c.failure(4), FFIError::HatCouldNotBeSet(3, 4, 4)));
    assert_eq!(c.device_id(), 3);
    assert!(DriverCommand::accepted(1));
    assert!(!DriverCommand::accepted(0));
    assert!(!DriverCommand::accepted(-1));
}

#[test]
fn sync_result_reports_every_failure() {
    assert!(sync_result(vec![]).is_ok());
    let failures = vec![FFIError::ButtonCouldNotBeSet(1, 1, 2), FFIError::HatCouldNotBeSet(1, 2, 2)];
    match sync_result(failures) {
        Err(Error::Sync(f)) => {
            assert_eq!(f.len(), 2);
            assert!(matches!(f[0], FFIError::ButtonCouldNotBeSet(1, 1, 2)));
            assert!(matches!(f[1], FFIError::HatCouldNotBeSet(1, 2, 2)));
        }
        other => panic!("unexpected {:?}", other),
    }
}

#[test]
fn acquisition_result_reports_refusal() {
    assert!(acquisition_result(5, 1).is_ok());
    assert!(matches!(
        acquisition_result(5, 0),
        Err(Error::Ffi(FFIError::DeviceCouldNotBeAcquired(5, 0)))
    ));
}
