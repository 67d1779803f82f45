use vstd::prelude::*;
use crate::axis::{Axis, AxisView};
use crate::button::{Button, ButtonView};
use crate::device::{Device, DeviceView};
use crate::error::{AppError, DeviceStatus, Error, FFIError};
use crate::hat::{Hat, HatState, HatView};

verus! {

/// Device IDs strictly ascending.
pub open spec fn ids_ascending(devices: Seq<DeviceView>) -> bool {
    forall|i: int, j: int| 0 <= i < j < devices.len() ==> devices[i].id < devices[j].id
}

/// The device with this ID, if there is one.
pub open spec fn lookup(devices: Seq<DeviceView>, id: u32) -> Option<DeviceView> {
    if exists|i: int| 0 <= i < devices.len() && devices[i].id == id {
        Some(devices[choose|i: int| 0 <= i < devices.len() && devices[i].id == id])
    } else {
        None
    }
}

/// The devices with the one that has `device`'s ID replaced by `device`.
pub open spec fn replaced(devices: Seq<DeviceView>, device: DeviceView) -> Seq<DeviceView> {
    devices.map_values(|d: DeviceView| if d.id == device.id { device } else { d })
}

/// Whether a device has exactly this many buttons, axes and hats.
pub open spec fn has_configuration(
    d: DeviceView,
    num_buttons: u32,
    num_axes: u32,
    num_hats: u32,
) -> bool {
    &&& d.buttons.len() == num_buttons
    &&& d.axes.len() == num_axes
    &&& d.hats.len() == num_hats
}

/// How many of the first `n` devices have exactly this many buttons, axes and hats.
pub open spec fn count_with_configuration(
    devices: Seq<DeviceView>,
    n: int,
    num_buttons: u32,
    num_axes: u32,
    num_hats: u32,
) -> nat
    decreases n,
{
    if n <= 0 {
        0
    } else {
        count_with_configuration(devices, n - 1, num_buttons, num_axes, num_hats) + if has_configuration(
            devices[n - 1],
            num_buttons,
            num_axes,
            num_hats,
        ) {
            1nat
        } else {
            0nat
        }
    }
}

/// One call into the driver that applies the state of one component.
#[derive(Debug, Clone, Copy, PartialEq, Eq, Structural)]
pub enum DriverCommand {
    /// Set a button: 1 pressed, 0 released.
    SetButton { device_id: u32, button_id: u8, value: i32 },
    /// Set an axis, which the driver addresses by its HID usage.
    SetAxis { device_id: u32, axis_id: u32, hid_usage: u32, value: i32 },
    /// Set a four-way hat: -1 centered, else 0 to 3 clockwise from north.
    SetDiscreteHat { device_id: u32, hat_id: u8, value: i32 },
    /// Set a continuous hat, in hundredths of a degree.
    SetContinuousHat { device_id: u32, hat_id: u8, value: u32 },
}

/// The command that applies a button's state.
pub open spec fn button_command(device_id: u32, b: ButtonView) -> DriverCommand {
    DriverCommand::SetButton {
        device_id,
        button_id: b.id,
        value: b.state.spec_driver_value(),
    }
}

/// The command that applies an axis's value.
pub open spec fn axis_command(device_id: u32, a: AxisView) -> DriverCommand {
    DriverCommand::SetAxis { device_id, axis_id: a.id, hid_usage: a.hid_usage, value: a.value }
}

/// The command that applies a hat's state.
pub open spec fn hat_command(device_id: u32, h: HatView) -> DriverCommand {
    match h.state {
        HatState::Discrete(dir) => DriverCommand::SetDiscreteHat {
            device_id,
            hat_id: h.id,
            value: dir.spec_driver_value() as i32,
        },
        HatState::Continuous(angle) => DriverCommand::SetContinuousHat {
            device_id,
            hat_id: h.id,
            value: angle,
        },
    }
}

/// The error that reports a rejected command, with the device status read after it.
pub open spec fn command_failure(c: DriverCommand, status: DeviceStatus) -> FFIError {
    match c {
        DriverCommand::SetButton { device_id, button_id, .. } => FFIError::ButtonCouldNotBeSet(
            device_id,
            button_id,
            status,
        ),
        DriverCommand::SetAxis { device_id, axis_id, .. } => FFIError::AxisCouldNotBeSet(
            device_id,
            axis_id,
            status,
        ),
        DriverCommand::SetDiscreteHat { device_id, hat_id, .. } => FFIError::HatCouldNotBeSet(
            device_id,
            hat_id,
            status,
        ),
        DriverCommand::SetContinuousHat { device_id, hat_id, .. } => FFIError::HatCouldNotBeSet(
            device_id,
            hat_id,
            status,
        ),
    }
}

impl DriverCommand {
    /// The ID of the device the command addresses.
    pub fn device_id(&self) -> (r: u32)
        ensures
            r == match *self {
                DriverCommand::SetButton { device_id, .. } => device_id,
                DriverCommand::SetAxis { device_id, .. } => device_id,
                DriverCommand::SetDiscreteHat { device_id, .. } => device_id,
                DriverCommand::SetContinuousHat { device_id, .. } => device_id,
            },
    {
        match *self {
            DriverCommand::SetButton { device_id, .. } => device_id,
            DriverCommand::SetAxis { device_id, .. } => device_id,
            DriverCommand::SetDiscreteHat { device_id, .. } => device_id,
            DriverCommand::SetContinuousHat { device_id, .. } => device_id,
        }
    }

    /// Whether the driver's answer to a command means that it was applied: the driver answers
    /// 1 for success.
    pub fn accepted(result: i32) -> (r: bool)
        ensures
            r == (result == 1),
    {
        result == 1
    }

    /// The error that reports this command as rejected, carrying the device status that the
    /// driver reported after the rejection.
    pub fn failure(&self, status: DeviceStatus) -> (r: FFIError)
        ensures
            r == command_failure(*self, status),
    {
        match *self {
            DriverCommand::SetButton { device_id, button_id, .. } => FFIError::ButtonCouldNotBeSet(
                device_id,
                button_id,
                status,
            ),
            DriverCommand::SetAxis { device_id, axis_id, .. } => FFIError::AxisCouldNotBeSet(
                device_id,
                axis_id,
                status,
            ),
            DriverCommand::SetDiscreteHat { device_id, hat_id, .. } => FFIError::HatCouldNotBeSet(
                device_id,
                hat_id,
                status,
            ),
            DriverCommand::SetContinuousHat { device_id, hat_id, .. } => FFIError::HatCouldNotBeSet(
                device_id,
                hat_id,
                status,
            ),
        }
    }
}

/// The driver calls that apply one device's state, in three phases: buttons, then axes,
/// then hats, each in ID order. Calls within a phase address distinct components and may be
/// issued in any order.
#[derive(Debug)]
pub struct SyncPlan {
    pub buttons: Vec<DriverCommand>,
    pub axes: Vec<DriverCommand>,
    pub hats: Vec<DriverCommand>,
}

/// Whether a plan applies every component of this device: one command per component.
pub open spec fn plans_device(p: SyncPlan, d: DeviceView) -> bool {
    &&& p.buttons@ == d.buttons.map_values(|b: ButtonView| button_command(d.id, b))
    &&& p.axes@ == d.axes.map_values(|a: AxisView| axis_command(d.id, a))
    &&& p.hats@ == d.hats.map_values(|h: HatView| hat_command(d.id, h))
}

impl SyncPlan {
    /// The plan that applies every component of `device`.
    pub fn for_device(device: &Device) -> (r: SyncPlan)
        ensures
            plans_device(r, device@),
    {
        let id = device.id();
        let src = device.buttons();
        let mut buttons: Vec<DriverCommand> = Vec::new();
        let mut i: usize = 0;
        while i < src.len()
            invariant
                i <= src@.len(),
                src@.map_values(|b: Button| b@) == device@.buttons,
                id == device@.id,
                buttons@ =~= device@.buttons.take(i as int).map_values(
                    |b: ButtonView| button_command(id, b),
                ),
            decreases src@.len() - i,
        {
            let b = &src[i];
            buttons.push(
                DriverCommand::SetButton { device_id: id, button_id: b.id(), value: b.get().driver_value() },
            );
            i = i + 1;
        }
        let src = device.axes();
        let mut axes: Vec<DriverCommand> = Vec::new();
        let mut i: usize = 0;
        while i < src.len()
            invariant
                i <= src@.len(),
                src@.map_values(|a: Axis| a@) == device@.axes,
                id == device@.id,
                axes@ =~= device@.axes.take(i as int).map_values(|a: AxisView| axis_command(id, a)),
            decreases src@.len() - i,
        {
            let a = &src[i];
            axes.push(
                DriverCommand::SetAxis {
                    device_id: id,
                    axis_id: a.id(),
                    hid_usage: a.hid_usage_of(),
                    value: a.get(),
                },
            );
            i = i + 1;
        }
        let src = device.hats();
        let mut hats: Vec<DriverCommand> = Vec::new();
        let mut i: usize = 0;
        while i < src.len()
            invariant
                i <= src@.len(),
                src@.map_values(|h: Hat| h@) == device@.hats,
                id == device@.id,
                hats@ =~= device@.hats.take(i as int).map_values(|h: HatView| hat_command(id, h)),
            decreases src@.len() - i,
        {
            let h = &src[i];
            let command = match h.get() {
                HatState::Discrete(dir) => DriverCommand::SetDiscreteHat {
                    device_id: id,
                    hat_id: h.id(),
                    value: dir.driver_value(),
                },
                HatState::Continuous(angle) => DriverCommand::SetContinuousHat {
                    device_id: id,
                    hat_id: h.id(),
                    value: angle,
                },
            };
            hats.push(command);
            i = i + 1;
        }
        assert(device@.buttons.take(device@.buttons.len() as int) =~= device@.buttons);
        assert(device@.axes.take(device@.axes.len() as int) =~= device@.axes);
        assert(device@.hats.take(device@.hats.len() as int) =~= device@.hats);
        SyncPlan { buttons, axes, hats }
    }
}

/// The outcome of a synchronisation whose rejected commands produced `failures`, in the order
/// the commands were issued.
pub fn sync_result(failures: Vec<FFIError>) -> (r: Result<(), Error>)
    ensures
        failures@.len() == 0 ==> r is Ok,
        failures@.len() > 0 ==> r == Err::<(), Error>(Error::Sync(failures)),
{
    if failures.len() == 0 {
        Ok(())
    } else {
        Err(Error::Sync(failures))
    }
}

/// A found position names the device that `lookup` gives.
proof fn lemma_lookup_at(devices: Seq<DeviceView>, i: int)
    requires
        ids_ascending(devices),
        0 <= i < devices.len(),
    ensures
        lookup(devices, devices[i].id) == Some(devices[i]),
{
    let id = devices[i].id;
    let k = choose|k: int| 0 <= k < devices.len() && devices[k].id == id;
    assert(devices[k].id == id);
    if k < i {
        assert(devices[k].id < devices[i].id);
    } else if k > i {
        assert(devices[i].id < devices[k].id);
    }
}


/// Handing a device back replaces the canonical state of its ID whole: looking that ID up
/// afterwards gives exactly the device handed back, every other ID gives what it gave before,
/// and the IDs stay in ascending order.
pub proof fn lemma_update_then_get(devices: Seq<DeviceView>, device: DeviceView, other: u32)
    requires
        ids_ascending(devices),
        lookup(devices, device.id) is Some,
    ensures
        ids_ascending(replaced(devices, device)),
        lookup(replaced(devices, device), device.id) == Some(device),
        other != device.id ==> lookup(replaced(devices, device), other) == lookup(devices, other),
{
    let after = replaced(devices, device);
    assert forall|i: int| 0 <= i < devices.len() implies #[trigger] after[i].id
        == devices[i].id by {}
    let i = choose|i: int| 0 <= i < devices.len() && devices[i].id == device.id;
    assert(after[i] == device);
    lemma_lookup_at(after, i);
    if other != device.id {
        if exists|k: int| 0 <= k < devices.len() && devices[k].id == other {
            let k = choose|k: int| 0 <= k < devices.len() && devices[k].id == other;
            lemma_lookup_at(devices, k);
            lemma_lookup_at(after, k);
        } else {
            assert forall|k: int| 0 <= k < after.len() implies #[trigger] after[k].id != other by {
                assert(devices[k].id != other);
            }
        }
    }
}

/// The canonical state of every acquired device, and the decisions that keep the driver in
/// step with it.
///
/// Devices are held in ascending ID order. [`VJoy::get_device_state`] hands out a detached
/// copy of one device; the caller changes it locally and hands it back to
/// [`VJoy::update_device_state`], which makes it canonical and plans the driver calls that
/// apply it.
///
/// IDs are counted from 1: devices 1..=16, buttons 1..=128, axes 1..=16, hats 1..=4.
#[derive(Debug)]
pub struct VJoy {
    devices: Vec<Device>,
}

impl View for VJoy {
    type V = Seq<DeviceView>;

    closed spec fn view(&self) -> Seq<DeviceView> {
        self.devices@.map_values(|d: Device| d@)
    }
}

impl VJoy {
    #[verifier::type_invariant]
    closed spec fn ascending(self) -> bool {
        ids_ascending(self@)
    }

    /// The controller over these devices, given in ascending ID order.
    pub(crate) fn from_ascending(devices: Vec<Device>) -> (r: VJoy)
        requires
            ids_ascending(devices@.map_values(|d: Device| d@)),
        ensures
            r@ == devices@.map_values(|d: Device| d@),
    {
        VJoy { devices }
    }

    /// The position of the device with this ID, found by binary search.
    fn position(&self, device_id: u32) -> (r: Option<usize>)
        ensures
            r matches Some(i) ==> i < self@.len() && self@[i as int].id == device_id,
            r is None ==> lookup(self@, device_id) is None,
    {
        proof {
            use_type_invariant(self);
        }
        let mut lo: usize = 0;
        let mut hi: usize = self.devices.len();
        while lo < hi
            invariant
                lo <= hi <= self@.len() == self.devices@.len(),
                ids_ascending(self@),
                forall|i: int| 0 <= i < lo ==> #[trigger] self@[i].id < device_id,
                forall|i: int| hi <= i < self@.len() ==> #[trigger] self@[i].id > device_id,
            decreases hi - lo,
        {
            let mid = lo + (hi - lo) / 2;
            let mid_id = self.devices[mid].id();
            assert(mid_id == self@[mid as int].id);
            if mid_id < device_id {
                assert forall|i: int| 0 <= i < mid + 1 implies #[trigger] self@[i].id
                    < device_id by {
                    if i < mid {
                        assert(self@[i].id < self@[mid as int].id);
                    }
                }
                lo = mid + 1;
            } else if mid_id > device_id {
                assert forall|i: int| mid <= i < self@.len() implies #[trigger] self@[i].id
                    > device_id by {
                    if i > mid {
                        assert(self@[mid as int].id < self@[i].id);
                    }
                }
                hi = mid;
            } else {
                return Some(mid);
            }
        }
        None
    }

    /// Moves the devices out, leaving `empty` in their place.
    fn take_devices(&mut self, empty: Vec<Device>) -> (r: Vec<Device>)
        requires
            empty@.len() == 0,
        ensures
            r@.map_values(|d: Device| d@) == old(self)@,
            final(self)@.len() == 0,
        no_unwind
    {
        let mut devices = empty;
        core::mem::swap(&mut self.devices, &mut devices);
        assert(self@ =~= Seq::<DeviceView>::empty());
        devices
    }

    /// A copy of every device, in ascending ID order.
    pub fn devices_cloned(&mut self) -> (r: Vec<Device>)
        ensures
            r@.map_values(|d: Device| d@) == old(self)@,
            final(self)@ == old(self)@,
    {
        let r = self.devices.clone();
        assert(r@.map_values(|d: Device| d@) =~= self@);
        r
    }

    /// The IDs of the acquired devices, in ascending order: the order in which they are
    /// released when the driver is torn down.
    pub fn device_ids(&self) -> (r: Vec<u32>)
        ensures
            r@ == self@.map_values(|d: DeviceView| d.id),
    {
        let mut r: Vec<u32> = Vec::new();
        let mut i: usize = 0;
        while i < self.devices.len()
            invariant
                i <= self.devices@.len() == self@.len(),
                r@ =~= self@.take(i as int).map_values(|d: DeviceView| d.id),
            decreases self.devices@.len() - i,
        {
            r.push(self.devices[i].id());
            i = i + 1;
        }
        assert(self@.take(self@.len() as int) =~= self@);
        r
    }

    /// A detached copy of the device with this ID. Changing the copy leaves this state as it
    /// is. Fails when no acquired device has this ID.
    pub fn get_device_state(&self, device_id: u32) -> (r: Result<Device, Error>)
        ensures
            lookup(self@, device_id) matches Some(d) ==> (r matches Ok(c) && c@ == d),
            lookup(self@, device_id) is None ==> r == Err::<Device, Error>(
                Error::App(AppError::DeviceNotFound(device_id)),
            ),
    {
        proof {
            use_type_invariant(self);
        }
        match self.position(device_id) {
            Some(i) => {
                proof {
                    lemma_lookup_at(self@, i as int);
                }
                Ok(self.devices[i].clone())
            },
            None => Err(Error::App(AppError::DeviceNotFound(device_id))),
        }
    }

    /// Makes `new_device_state` the canonical state of the device with its ID, and plans the
    /// driver calls that apply it: one per component, buttons, then axes, then hats.
    ///
    /// The state is replaced whole before any driver call, whatever the calls then do. Fails,
    /// changing nothing, when no acquired device has that ID.
    pub fn update_device_state(&mut self, new_device_state: &Device) -> (r: Result<
        SyncPlan,
        Error,
    >)
        ensures
            lookup(old(self)@, new_device_state@.id) is Some ==> (r matches Ok(p) && plans_device(
                p,
                new_device_state@,
            )) && final(self)@ == replaced(old(self)@, new_device_state@),
            lookup(old(self)@, new_device_state@.id) is None ==> r == Err::<SyncPlan, Error>(
                Error::App(AppError::DeviceNotFound(new_device_state@.id)),
            ) && final(self)@ == old(self)@,
    {
        proof {
            use_type_invariant(&*self);
        }
        let device_id = new_device_state.id();
        let i = match self.position(device_id) {
            Some(i) => i,
            None => return Err(Error::App(AppError::DeviceNotFound(device_id))),
        };
        proof {
            lemma_lookup_at(self@, i as int);
        }
        let ghost before = self@;
        let mut devices = self.take_devices(Vec::new());
        devices.set(i, new_device_state.clone());
        assert(devices@.map_values(|d: Device| d@) =~= before.update(i as int, new_device_state@));
        assert(ids_ascending(before.update(i as int, new_device_state@))) by {
            assert forall|a: int, b: int| 0 <= a < b < before.len() implies #[trigger] before.update(
                i as int,
                new_device_state@,
            )[a].id < #[trigger] before.update(i as int, new_device_state@)[b].id by {
                assert(before[a].id < before[b].id);
            }
        }
        self.devices = devices;
        assert forall|j: int| 0 <= j < before.len() implies #[trigger] self@[j] == replaced(
            before,
            new_device_state@,
        )[j] by {
            if j != i {
                if j < i {
                    assert(before[j].id < before[i as int].id);
                } else {
                    assert(before[i as int].id < before[j].id);
                }
            }
        }
        assert(self@ =~= replaced(before, new_device_state@));
        Ok(SyncPlan::for_device(new_device_state))
    }

    /// The ID of the one device that has exactly this many buttons, axes and hats. Fails when
    /// no device has, or when more than one has.
    pub fn get_id_for_configuration(&self, num_buttons: u32, num_axes: u32, num_hats: u32) -> (r:
        Result<u32, Error>)
        ensures
            count_with_configuration(self@, self@.len() as int, num_buttons, num_axes, num_hats)
                == 0 ==> r == Err::<u32, Error>(
                Error::App(AppError::DeviceConfigNotFound(num_buttons, num_axes, num_hats)),
            ),
            count_with_configuration(self@, self@.len() as int, num_buttons, num_axes, num_hats)
                > 1 ==> r == Err::<u32, Error>(
                Error::App(AppError::DeviceConfigMultipleFound(num_buttons, num_axes, num_hats)),
            ),
            count_with_configuration(self@, self@.len() as int, num_buttons, num_axes, num_hats)
                == 1 ==> (r matches Ok(id) && exists|i: int|
                0 <= i < self@.len() && self@[i].id == id && has_configuration(
                    #[trigger] self@[i],
                    num_buttons,
                    num_axes,
                    num_hats,
                )),
    {
        let mut count: usize = 0;
        let mut found: u32 = 0;
        let mut i: usize = 0;
        while i < self.devices.len()
            invariant
                i <= self.devices@.len() == self@.len(),
                count == count_with_configuration(self@, i as int, num_buttons, num_axes, num_hats),
                count <= i,
                count >= 1 ==> exists|k: int|
                    0 <= k < i && self@[k].id == found && has_configuration(
                        #[trigger] self@[k],
                        num_buttons,
                        num_axes,
                        num_hats,
                    ),
            decreases self.devices@.len() - i,
        {
            let d = &self.devices[i];
            if d.num_buttons() == num_buttons as usize && d.num_axes() == num_axes as usize
                && d.num_hats() == num_hats as usize {
                assert(has_configuration(self@[i as int], num_buttons, num_axes, num_hats));
                if count == 0 {
                    found = d.id();
                }
                count = count + 1;
            }
            i = i + 1;
        }
        if count > 1 {
            Err(Error::App(AppError::DeviceConfigMultipleFound(num_buttons, num_axes, num_hats)))
        } else if count == 1 {
            Ok(found)
        } else {
            Err(Error::App(AppError::DeviceConfigNotFound(num_buttons, num_axes, num_hats)))
        }
    }
}

} // verus!
