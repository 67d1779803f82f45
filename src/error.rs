use vstd::prelude::*;

verus! {

/// A device status as the driver reports it: 0 owned by this process, 1 free, 2 owned by
/// another process, 3 missing, 4 unknown.
pub type DeviceStatus = i32;

/// Any error of this library.
#[derive(Debug)]
pub enum Error {
    /// The caller addressed something that the local state does not hold.
    App(AppError),
    /// The driver rejected an operation.
    Ffi(FFIError),
    /// The driver rejected some of the component updates of one synchronisation, in the order
    /// they were issued; the others were applied.
    Sync(Vec<FFIError>),
}

/// Errors that come from incorrect use of the API, such as a button ID that the device lacks.
/// They never involve the driver.
#[derive(Debug, Clone, Copy, PartialEq, Eq, Structural)]
pub enum AppError {
    /// No acquired device has this ID.
    DeviceNotFound(u32),
    /// The device (first) has no axis with this ID (second).
    AxisNotFound(u32, u32),
    /// The device (first) has no button with this ID (second).
    ButtonNotFound(u32, u8),
    /// The device (first) has no hat with this ID (second).
    HatNotFound(u32, u8),
    /// No device has this many buttons, axes and hats.
    DeviceConfigNotFound(u32, u32, u32),
    /// More than one device has this many buttons, axes and hats.
    DeviceConfigMultipleFound(u32, u32, u32),
}

/// Errors that the driver reports. Those about a component carry the device ID, the
/// component ID and the device status that the driver reported after the failure.
#[derive(Debug)]
pub enum FFIError {
    /// The driver library could not be opened at this location.
    DynamicLybraryNotFound(String),
    /// The device could not be acquired; the driver answered with this value.
    DeviceCouldNotBeAcquired(u32, DeviceStatus),
    ButtonCouldNotBeSet(u32, u8, DeviceStatus),
    HatCouldNotBeSet(u32, u8, DeviceStatus),
    AxisCouldNotBeSet(u32, u32, DeviceStatus),
}

} // verus!
