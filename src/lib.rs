//! State of virtual joystick devices and its synchronisation with the driver that exposes them.
//!
//! A [`VJoy`] holds the canonical state of every acquired [`Device`]: its buttons, axes and
//! hats. Callers take a detached copy of a device, change it locally, and hand it back; the
//! controller makes it canonical and plans the driver calls that apply it. Talking to the
//! driver itself is left to the caller, which performs the planned [`DriverCommand`]s and the
//! [`Discovery`] actions and reports the answers back.
use vstd::prelude::*;

pub mod axis;
pub mod button;
pub mod device;
pub mod discovery;
pub mod error;
pub mod hat;
pub mod vjoy;

pub use axis::{Axis, AxisView};
pub use button::{Button, ButtonState, ButtonView};
pub use device::{AxisSlot, Device, DeviceConfiguration, DeviceView};
pub use discovery::{acquisition_result, Discovery, DiscoveryAction, DiscoveryEvent};
pub use error::{AppError, DeviceStatus, Error, FFIError};
pub use hat::{FourWayHat, Hat, HatState, HatView, CONTINUOUS_CENTERED};
pub use vjoy::{sync_result, DriverCommand, SyncPlan, VJoy};
