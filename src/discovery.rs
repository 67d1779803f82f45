use vstd::prelude::*;
use crate::device::{configured, Device, DeviceConfiguration, DeviceView};
use crate::error::{Error, FFIError};
use crate::vjoy::{ids_ascending, VJoy};

verus! {

/// The first device ID that discovery probes.
pub const FIRST_DEVICE_ID: u32 = 1;

/// The last device ID that discovery probes.
pub const LAST_DEVICE_ID: u32 = 16;

/// What the driver was asked to acquire a device answered: 1 when it was acquired.
pub fn acquisition_result(device_id: u32, result: i32) -> (r: Result<(), Error>)
    ensures
        result == 1 ==> r is Ok,
        result != 1 ==> r == Err::<(), Error>(
            Error::Ffi(FFIError::DeviceCouldNotBeAcquired(device_id, result)),
        ),
{
    if result == 1 {
        Ok(())
    } else {
        Err(Error::Ffi(FFIError::DeviceCouldNotBeAcquired(device_id, result)))
    }
}

/// What discovery needs from the driver next.
#[derive(Debug, Clone, Copy, PartialEq, Eq, Structural)]
pub enum DiscoveryAction {
    /// Try to acquire this device, and report the driver's answer.
    Acquire(u32),
    /// Read the configuration of this device, which was just acquired.
    QueryConfiguration(u32),
    /// Every device ID has been probed.
    Finished,
}

/// What the driver answered.
#[derive(Debug)]
pub enum DiscoveryEvent {
    /// The answer to an acquisition: 1 when the device was acquired.
    Acquisition(i32),
    /// The configuration of the device that was just acquired.
    Configuration(DeviceConfiguration),
}

/// Where discovery stands: the device ID it is at, whether that device was acquired, and the
/// devices found so far.
pub struct DiscoveryView {
    pub next_id: u32,
    pub acquired: bool,
    pub devices: Seq<DeviceView>,
}

/// What discovery asks of the driver in a state.
pub open spec fn next_action(v: DiscoveryView) -> DiscoveryAction {
    if v.next_id > LAST_DEVICE_ID {
        DiscoveryAction::Finished
    } else if v.acquired {
        DiscoveryAction::QueryConfiguration(v.next_id)
    } else {
        DiscoveryAction::Acquire(v.next_id)
    }
}

/// The state after the driver's answer. A device that could not be acquired is skipped; an
/// acquired one is added once its configuration is known. An answer that does not fit the
/// action asked for changes nothing.
pub open spec fn after_event(v: DiscoveryView, e: DiscoveryEvent) -> DiscoveryView {
    match (next_action(v), e) {
        (DiscoveryAction::Acquire(id), DiscoveryEvent::Acquisition(result)) => if result == 1 {
            DiscoveryView { acquired: true, ..v }
        } else {
            DiscoveryView { next_id: (id + 1) as u32, ..v }
        },
        (DiscoveryAction::QueryConfiguration(id), DiscoveryEvent::Configuration(c)) => {
            DiscoveryView {
                next_id: (id + 1) as u32,
                acquired: false,
                devices: v.devices.push(configured(id, c)),
            }
        },
        _ => v,
    }
}

/// Finds the devices that the driver lets this process acquire, probing the IDs
/// [`FIRST_DEVICE_ID`] to [`LAST_DEVICE_ID`] in turn.
///
/// The caller performs each [`Discovery::next_action`] on the driver and hands the answer to
/// [`Discovery::handle`], until the action is [`DiscoveryAction::Finished`].
pub struct Discovery {
    next_id: u32,
    acquired: bool,
    devices: Vec<Device>,
}

impl View for Discovery {
    type V = DiscoveryView;

    closed spec fn view(&self) -> DiscoveryView {
        DiscoveryView {
            next_id: self.next_id,
            acquired: self.acquired,
            devices: self.devices@.map_values(|d: Device| d@),
        }
    }
}

impl Discovery {
    #[verifier::type_invariant]
    closed spec fn consistent(self) -> bool {
        &&& FIRST_DEVICE_ID <= self.next_id <= LAST_DEVICE_ID + 1
        &&& self.acquired ==> self.next_id <= LAST_DEVICE_ID
        &&& ids_ascending(self@.devices)
        &&& forall|i: int|
            0 <= i < self@.devices.len() ==> #[trigger] self@.devices[i].id < self.next_id
    }

    /// Discovery before any device was probed.
    pub fn new() -> (r: Discovery)
        ensures
            r@ == (DiscoveryView {
                next_id: FIRST_DEVICE_ID,
                acquired: false,
                devices: Seq::empty(),
            }),
    {
        let r = Discovery { next_id: FIRST_DEVICE_ID, acquired: false, devices: Vec::new() };
        assert(r@.devices =~= Seq::<DeviceView>::empty());
        r
    }

    /// What discovery asks of the driver now.
    pub fn next_action(&self) -> (r: DiscoveryAction)
        ensures
            r == next_action(self@),
    {
        if self.next_id > LAST_DEVICE_ID {
            DiscoveryAction::Finished
        } else if self.acquired {
            DiscoveryAction::QueryConfiguration(self.next_id)
        } else {
            DiscoveryAction::Acquire(self.next_id)
        }
    }

    /// Takes the driver's answer to the current action.
    pub fn handle(self, event: DiscoveryEvent) -> (r: Discovery)
        ensures
            r@ == after_event(self@, event),
    {
        proof {
            use_type_invariant(&self);
        }
        let action = self.next_action();
        let ghost before = self@;
        let Discovery { next_id, acquired, devices } = self;
        match (action, event) {
            (DiscoveryAction::Acquire(id), DiscoveryEvent::Acquisition(result)) => {
                if acquisition_result(id, result).is_ok() {
                    Discovery { next_id, acquired: true, devices }
                } else {
                    Discovery { next_id: id + 1, acquired: false, devices }
                }
            },
            (DiscoveryAction::QueryConfiguration(id), DiscoveryEvent::Configuration(c)) => {
                let mut devices = devices;
                devices.push(Device::from_configuration(id, &c));
                let ghost after = before.devices.push(configured(id, c));
                assert(devices@.map_values(|d: Device| d@) =~= after);
                assert(ids_ascending(after)) by {
                    assert forall|a: int, b: int| 0 <= a < b < after.len() implies #[trigger] after[a].id
                        < #[trigger] after[b].id by {
                        assert(before.devices[a].id < id);
                        if b < before.devices.len() {
                            assert(before.devices[a].id < before.devices[b].id);
                        }
                    }
                }
                Discovery { next_id: id + 1, acquired: false, devices }
            },
            (_, _) => Discovery { next_id, acquired, devices },
        }
    }

    /// The controller over the devices found, in ascending ID order.
    pub fn into_controller(self) -> (r: VJoy)
        ensures
            r@ == self@.devices,
    {
        proof {
            use_type_invariant(&self);
        }
        VJoy::from_ascending(self.devices)
    }
}

} // verus!
