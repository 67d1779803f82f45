use vstd::prelude::*;
use crate::axis::{Axis, AxisView};
use crate::button::{Button, ButtonState, ButtonView};
use crate::error::{AppError, Error};
use crate::hat::{FourWayHat, Hat, HatState, HatView, CONTINUOUS_CENTERED};

verus! {

/// The most buttons a device can have.
pub const MAX_BUTTONS: u8 = 128;

/// The number of axis slots a device can have.
pub const MAX_AXES: u32 = 16;

/// The most hats a device can have.
pub const MAX_HATS: u8 = 4;

/// What a device holds: its ID and its components, each sequence in ID order.
pub struct DeviceView {
    pub id: u32,
    pub buttons: Seq<ButtonView>,
    pub axes: Seq<AxisView>,
    pub hats: Seq<HatView>,
}

impl DeviceView {
    /// The state of the button with this ID, which is its position counted from 1.
    pub open spec fn button_state(self, id: int) -> Option<ButtonState> {
        if 1 <= id <= self.buttons.len() {
            Some(self.buttons[id - 1].state)
        } else {
            None
        }
    }

    /// The value of the axis with this ID, which is its position counted from 1.
    pub open spec fn axis_value(self, id: int) -> Option<i32> {
        if 1 <= id <= self.axes.len() {
            Some(self.axes[id - 1].value)
        } else {
            None
        }
    }

    /// The state of the hat with this ID, which is its position counted from 1.
    pub open spec fn hat_state(self, id: int) -> Option<HatState> {
        if 1 <= id <= self.hats.len() {
            Some(self.hats[id - 1].state)
        } else {
            None
        }
    }

    /// The device with the state of button `id` replaced.
    pub open spec fn with_button_state(self, id: int, state: ButtonState) -> DeviceView {
        DeviceView {
            buttons: self.buttons.update(id - 1, ButtonView { state, ..self.buttons[id - 1] }),
            ..self
        }
    }

    /// The device with the value of axis `id` replaced.
    pub open spec fn with_axis_value(self, id: int, value: i32) -> DeviceView {
        DeviceView {
            axes: self.axes.update(id - 1, AxisView { value, ..self.axes[id - 1] }),
            ..self
        }
    }

    /// The device with the state of hat `id` replaced.
    pub open spec fn with_hat_state(self, id: int, state: HatState) -> DeviceView {
        DeviceView {
            hats: self.hats.update(id - 1, HatView { state, ..self.hats[id - 1] }),
            ..self
        }
    }

    /// The device with every component at rest.
    pub open spec fn at_rest(self) -> DeviceView {
        DeviceView {
            buttons: self.buttons.map_values(
                |b: ButtonView| ButtonView { state: ButtonState::Released, ..b },
            ),
            axes: self.axes.map_values(|a: AxisView| AxisView { value: 0, ..a }),
            hats: self.hats.map_values(|h: HatView| HatView { state: h.state.spec_rest(), ..h }),
            ..self
        }
    }

    /// The kind of the device's hats: the state of its first hat, or a centered four-way hat
    /// when it has none.
    pub open spec fn hat_type(self) -> HatState {
        if self.hats.len() == 0 {
            HatState::Discrete(FourWayHat::Centered)
        } else {
            self.hats[0].state
        }
    }
}

/// One axis slot of a device's driver configuration, as discovery reads it.
#[derive(Debug)]
pub struct AxisSlot {
    /// The slot's display name.
    pub display_name: String,
    /// The slot's HID usage code.
    pub hid_usage: u32,
    /// The driver's answer to whether the device has this axis: 1 when it has.
    pub present: i32,
}

/// A device's configuration as the driver reports it when the device is discovered.
#[derive(Debug)]
pub struct DeviceConfiguration {
    /// The number of buttons.
    pub button_count: i32,
    /// The axis slots in slot order; the axis in slot `k` (counted from 1) has ID `k`.
    pub axis_slots: Vec<AxisSlot>,
    /// The number of four-way hats.
    pub discrete_hat_count: i32,
    /// The number of continuous hats.
    pub continuous_hat_count: i32,
}

/// A count reported by the driver, read as none when negative and capped at `max`.
pub open spec fn capped_count(n: i32, max: int) -> int {
    if n < 0 {
        0
    } else if n > max {
        max
    } else {
        n as int
    }
}

/// `n` buttons at rest, with IDs 1 to `n`.
pub open spec fn buttons_at_rest(n: int) -> Seq<ButtonView> {
    Seq::new(n as nat, |i: int| ButtonView { id: (i + 1) as u8, state: ButtonState::Released })
}

/// `n` hats in the given state, with IDs 1 to `n`.
pub open spec fn hats_in_state(n: int, state: HatState) -> Seq<HatView> {
    Seq::new(n as nat, |i: int| HatView { id: (i + 1) as u8, state })
}

/// The axes at rest that the first `n` slots hold: one for each slot the driver reports
/// present, with the slot's position as its ID.
pub open spec fn axes_in_slots(slots: Seq<AxisSlot>, n: int) -> Seq<AxisView>
    decreases n,
{
    if n <= 0 {
        Seq::empty()
    } else {
        let slot = slots[n - 1];
        let before = axes_in_slots(slots, n - 1);
        if slot.present == 1 {
            before.push(
                AxisView {
                    id: n as u32,
                    value: 0,
                    display_name: slot.display_name@,
                    hid_usage: slot.hid_usage,
                },
            )
        } else {
            before
        }
    }
}

/// The hats of a configuration: four-way ones when it has any, else continuous ones, all
/// at rest.
pub open spec fn configured_hats(c: DeviceConfiguration) -> Seq<HatView> {
    if c.discrete_hat_count > 0 {
        hats_in_state(
            capped_count(c.discrete_hat_count, MAX_HATS as int),
            HatState::Discrete(FourWayHat::Centered),
        )
    } else if c.continuous_hat_count > 0 {
        hats_in_state(
            capped_count(c.continuous_hat_count, MAX_HATS as int),
            HatState::Continuous(CONTINUOUS_CENTERED),
        )
    } else {
        Seq::empty()
    }
}

/// The device that discovery builds from a configuration: every component at rest, and only
/// the first [`MAX_AXES`] axis slots read.
pub open spec fn configured(device_id: u32, c: DeviceConfiguration) -> DeviceView {
    let n_slots = if c.axis_slots@.len() > MAX_AXES { MAX_AXES as int } else {
        c.axis_slots@.len() as int
    };
    DeviceView {
        id: device_id,
        buttons: buttons_at_rest(capped_count(c.button_count, MAX_BUTTONS as int)),
        axes: axes_in_slots(c.axis_slots@, n_slots),
        hats: configured_hats(c),
    }
}

/// Setting a component that the device has, and then reading it back, gives the value that
/// was set; the device's other components keep their values.
pub proof fn lemma_set_then_get(
    d: DeviceView,
    id: int,
    other: int,
    button: ButtonState,
    value: i32,
    hat: HatState,
)
    requires
        id != other,
    ensures
        1 <= id <= d.buttons.len() ==> d.with_button_state(id, button).button_state(id) == Some(
            button,
        ) && d.with_button_state(id, button).button_state(other) == d.button_state(other),
        1 <= id <= d.axes.len() ==> d.with_axis_value(id, value).axis_value(id) == Some(value)
            && d.with_axis_value(id, value).axis_value(other) == d.axis_value(other),
        1 <= id <= d.hats.len() ==> d.with_hat_state(id, hat).hat_state(id) == Some(hat)
            && d.with_hat_state(id, hat).hat_state(other) == d.hat_state(other),
{
}

/// Putting a device at rest twice leaves it as putting it at rest once.
pub proof fn lemma_reset_all_idempotent(d: DeviceView)
    ensures
        d.at_rest().at_rest() == d.at_rest(),
{
    assert(d.at_rest().at_rest().buttons =~= d.at_rest().buttons);
    assert(d.at_rest().at_rest().axes =~= d.at_rest().axes);
    assert forall|j: int| 0 <= j < d.hats.len() implies #[trigger] d.at_rest().at_rest().hats[j]
        == d.at_rest().hats[j] by {
        match d.hats[j].state {
            HatState::Discrete(_) => {},
            HatState::Continuous(_) => {},
        }
    }
    assert(d.at_rest().at_rest().hats =~= d.at_rest().hats);
}

/// Current state of an enabled device.
///
/// Device IDs range over 1..=16. Which buttons, axes and hats a device has is fixed by the
/// driver's configuration when the device is discovered; only their values change.
///
/// Components are addressed by their position counted from 1: button `n` is the `n`-th
/// button. Changing a component here is local; it reaches the driver when the device is
/// handed to [`crate::VJoy::update_device_state`].
#[derive(Debug)]
pub struct Device {
    id: u32,
    buttons: Vec<Button>,
    axes: Vec<Axis>,
    hats: Vec<Hat>,
}

impl View for Device {
    type V = DeviceView;

    closed spec fn view(&self) -> DeviceView {
        DeviceView {
            id: self.id,
            buttons: self.buttons@.map_values(|b: Button| b@),
            axes: self.axes@.map_values(|a: Axis| a@),
            hats: self.hats@.map_values(|h: Hat| h@),
        }
    }
}

impl Clone for Device {
    fn clone(&self) -> (r: Self)
        ensures
            r@ == self@,
    {
        let buttons = self.buttons.clone();
        let axes = self.axes.clone();
        let hats = self.hats.clone();
        let r = Device { id: self.id, buttons, axes, hats };
        assert(r@.buttons =~= self@.buttons);
        assert(r@.axes =~= self@.axes);
        assert(r@.hats =~= self@.hats);
        r
    }
}

impl Device {
    /// A count reported by the driver, read as none when negative and capped at `max`.
    fn capped(n: i32, max: u8) -> (r: u8)
        ensures
            r as int == capped_count(n, max as int),
    {
        if n < 0 {
            0
        } else if n > max as i32 {
            max
        } else {
            n as u8
        }
    }

    /// Builds device `device_id` from its configuration, with every component at rest.
    ///
    /// Counts above the driver's maxima ([`MAX_BUTTONS`], [`MAX_HATS`]) are capped and
    /// negative counts read as none. Four-way hats take precedence over continuous ones: a
    /// device has hats of one kind only.
    pub fn from_configuration(device_id: u32, config: &DeviceConfiguration) -> (r: Device)
        ensures
            r@ == configured(device_id, *config),
    {
        let n_buttons = Self::capped(config.button_count, MAX_BUTTONS);
        let mut buttons: Vec<Button> = Vec::new();
        let mut i: u8 = 0;
        while i < n_buttons
            invariant
                i <= n_buttons <= MAX_BUTTONS,
                buttons@.len() == i,
                buttons@.map_values(|b: Button| b@) =~= buttons_at_rest(i as int),
            decreases n_buttons - i,
        {
            let ghost before = buttons@;
            buttons.push(Button::released(i + 1));
            assert forall|j: int| 0 <= j < i + 1 implies buttons@.map_values(
                |b: Button| b@,
            )[j] == #[trigger] buttons_at_rest(i + 1)[j] by {
                if j < i {
                    assert(buttons@[j] == before[j]);
                    assert(before.map_values(|b: Button| b@)[j] == buttons_at_rest(i as int)[j]);
                }
            }
            assert(buttons@.map_values(|b: Button| b@) =~= buttons_at_rest(i + 1));
            i = i + 1;
        }

        let n_slots: usize = if config.axis_slots.len() > MAX_AXES as usize {
            MAX_AXES as usize
        } else {
            config.axis_slots.len()
        };
        let mut axes: Vec<Axis> = Vec::new();
        let mut k: usize = 0;
        while k < n_slots
            invariant
                k <= n_slots <= MAX_AXES,
                n_slots <= config.axis_slots@.len(),
                axes@.map_values(|a: Axis| a@) =~= axes_in_slots(config.axis_slots@, k as int),
            decreases n_slots - k,
        {
            let slot = &config.axis_slots[k];
            if slot.present == 1 {
                axes.push(Axis::at_rest((k + 1) as u32, slot.display_name.clone(), slot.hid_usage));
            }
            k = k + 1;
        }

        let (n_hats, rest) = if config.discrete_hat_count > 0 {
            (
                Self::capped(config.discrete_hat_count, MAX_HATS),
                HatState::Discrete(FourWayHat::Centered),
            )
        } else if config.continuous_hat_count > 0 {
            (
                Self::capped(config.continuous_hat_count, MAX_HATS),
                HatState::Continuous(CONTINUOUS_CENTERED),
            )
        } else {
            (0, HatState::Discrete(FourWayHat::Centered))
        };
        let mut hats: Vec<Hat> = Vec::new();
        let mut i: u8 = 0;
        while i < n_hats
            invariant
                i <= n_hats <= MAX_HATS,
                hats@.len() == i,
                hats@.map_values(|h: Hat| h@) =~= hats_in_state(i as int, rest),
            decreases n_hats - i,
        {
            let ghost before = hats@;
            hats.push(Hat::with_state(i + 1, rest));
            assert forall|j: int| 0 <= j < i + 1 implies hats@.map_values(
                |h: Hat| h@,
            )[j] == #[trigger] hats_in_state(i + 1, rest)[j] by {
                if j < i {
                    assert(hats@[j] == before[j]);
                    assert(before.map_values(|h: Hat| h@)[j] == hats_in_state(i as int, rest)[j]);
                }
            }
            assert(hats@.map_values(|h: Hat| h@) =~= hats_in_state(i + 1, rest));
            i = i + 1;
        }
        let r = Device { id: device_id, buttons, axes, hats };
        assert(r@.hats =~= configured_hats(*config));
        r
    }

    pub fn id(&self) -> (r: u32)
        ensures
            r == self@.id,
    {
        self.id
    }

    /// The buttons in ID order.
    pub fn buttons(&self) -> (r: &[Button])
        ensures
            r@.map_values(|b: Button| b@) == self@.buttons,
    {
        self.buttons.as_slice()
    }

    /// The buttons in ID order, to change their states.
    pub fn buttons_mut(&mut self) -> (r: &mut [Button])
        ensures
            r@.map_values(|b: Button| b@) == old(self)@.buttons,
            final(self)@ == (DeviceView {
                buttons: final(r)@.map_values(|b: Button| b@),
                ..old(self)@
            }),
    {
        self.buttons.as_mut_slice()
    }

    pub fn num_buttons(&self) -> (r: usize)
        ensures
            r == self@.buttons.len(),
    {
        self.buttons.len()
    }

    /// The axes in ID order.
    pub fn axes(&self) -> (r: &[Axis])
        ensures
            r@.map_values(|a: Axis| a@) == self@.axes,
    {
        self.axes.as_slice()
    }

    /// The axes in ID order, to change their values.
    pub fn axes_mut(&mut self) -> (r: &mut [Axis])
        ensures
            r@.map_values(|a: Axis| a@) == old(self)@.axes,
            final(self)@ == (DeviceView {
                axes: final(r)@.map_values(|a: Axis| a@),
                ..old(self)@
            }),
    {
        self.axes.as_mut_slice()
    }

    pub fn num_axes(&self) -> (r: usize)
        ensures
            r == self@.axes.len(),
    {
        self.axes.len()
    }

    /// The hats in ID order.
    pub fn hats(&self) -> (r: &[Hat])
        ensures
            r@.map_values(|h: Hat| h@) == self@.hats,
    {
        self.hats.as_slice()
    }

    /// The hats in ID order, to change their states.
    pub fn hats_mut(&mut self) -> (r: &mut [Hat])
        ensures
            r@.map_values(|h: Hat| h@) == old(self)@.hats,
            final(self)@ == (DeviceView {
                hats: final(r)@.map_values(|h: Hat| h@),
                ..old(self)@
            }),
    {
        self.hats.as_mut_slice()
    }

    pub fn num_hats(&self) -> (r: usize)
        ensures
            r == self@.hats.len(),
    {
        self.hats.len()
    }

    /// Sets the state of button `button_id`. Fails, leaving the device as it was, when the
    /// device has no button with that ID.
    pub fn set_button(&mut self, button_id: u8, state: ButtonState) -> (r: Result<(), Error>)
        ensures
            1 <= button_id <= old(self)@.buttons.len() ==> r is Ok && final(self)@
                == old(self)@.with_button_state(button_id as int, state),
            !(1 <= button_id <= old(self)@.buttons.len()) ==> r == Err::<(), Error>(
                Error::App(AppError::ButtonNotFound(old(self)@.id, button_id)),
            ) && final(self)@ == old(self)@,
    {
        if button_id == 0 || button_id as usize > self.buttons.len() {
            return Err(Error::App(AppError::ButtonNotFound(self.id, button_id)));
        }
        let index = (button_id - 1) as usize;
        let mut button = self.buttons[index];
        button.set(state);
        self.buttons.set(index, button);
        assert(self@.buttons =~= old(self)@.with_button_state(button_id as int, state).buttons);
        Ok(())
    }

    /// Sets the state of hat `hat_id`. Fails, leaving the device as it was, when the device
    /// has no hat with that ID.
    pub fn set_hat(&mut self, hat_id: u8, state: HatState) -> (r: Result<(), Error>)
        ensures
            1 <= hat_id <= old(self)@.hats.len() ==> r is Ok && final(self)@
                == old(self)@.with_hat_state(hat_id as int, state),
            !(1 <= hat_id <= old(self)@.hats.len()) ==> r == Err::<(), Error>(
                Error::App(AppError::HatNotFound(old(self)@.id, hat_id)),
            ) && final(self)@ == old(self)@,
    {
        if hat_id == 0 || hat_id as usize > self.hats.len() {
            return Err(Error::App(AppError::HatNotFound(self.id, hat_id)));
        }
        let index = (hat_id - 1) as usize;
        let mut hat = self.hats[index];
        hat.set(state);
        self.hats.set(index, hat);
        assert(self@.hats =~= old(self)@.with_hat_state(hat_id as int, state).hats);
        Ok(())
    }

    /// Sets the value of axis `axis_id`. Fails, leaving the device as it was, when the device
    /// has no axis with that ID.
    pub fn set_axis(&mut self, axis_id: u32, value: i32) -> (r: Result<(), Error>)
        ensures
            1 <= axis_id <= old(self)@.axes.len() ==> r is Ok && final(self)@
                == old(self)@.with_axis_value(axis_id as int, value),
            !(1 <= axis_id <= old(self)@.axes.len()) ==> r == Err::<(), Error>(
                Error::App(AppError::AxisNotFound(old(self)@.id, axis_id)),
            ) && final(self)@ == old(self)@,
    {
        if axis_id == 0 || axis_id as usize > self.axes.len() {
            return Err(Error::App(AppError::AxisNotFound(self.id, axis_id)));
        }
        let index = (axis_id - 1) as usize;
        self.axes[index].set(value);
        assert(self@.axes =~= old(self)@.with_axis_value(axis_id as int, value).axes);
        Ok(())
    }

    /// The state of button `button_id`, or an error when the device has no button with that
    /// ID.
    pub fn get_button(&self, button_id: u8) -> (r: Result<ButtonState, Error>)
        ensures
            1 <= button_id <= self@.buttons.len() ==> r == Ok::<ButtonState, Error>(
                self@.buttons[button_id - 1].state,
            ),
            !(1 <= button_id <= self@.buttons.len()) ==> r == Err::<ButtonState, Error>(
                Error::App(AppError::ButtonNotFound(self@.id, button_id)),
            ),
    {
        if button_id == 0 || button_id as usize > self.buttons.len() {
            return Err(Error::App(AppError::ButtonNotFound(self.id, button_id)));
        }
        Ok(self.buttons[(button_id - 1) as usize].get())
    }

    /// The value of axis `axis_id`, or an error when the device has no axis with that ID.
    pub fn get_axis(&self, axis_id: u32) -> (r: Result<i32, Error>)
        ensures
            1 <= axis_id <= self@.axes.len() ==> r == Ok::<i32, Error>(
                self@.axes[axis_id - 1].value,
            ),
            !(1 <= axis_id <= self@.axes.len()) ==> r == Err::<i32, Error>(
                Error::App(AppError::AxisNotFound(self@.id, axis_id)),
            ),
    {
        if axis_id == 0 || axis_id as usize > self.axes.len() {
            return Err(Error::App(AppError::AxisNotFound(self.id, axis_id)));
        }
        Ok(self.axes[(axis_id - 1) as usize].get())
    }

    /// The state of hat `hat_id`, or an error when the device has no hat with that ID.
    pub fn get_hat(&self, hat_id: u8) -> (r: Result<HatState, Error>)
        ensures
            1 <= hat_id <= self@.hats.len() ==> r == Ok::<HatState, Error>(
                self@.hats[hat_id - 1].state,
            ),
            !(1 <= hat_id <= self@.hats.len()) ==> r == Err::<HatState, Error>(
                Error::App(AppError::HatNotFound(self@.id, hat_id)),
            ),
    {
        if hat_id == 0 || hat_id as usize > self.hats.len() {
            return Err(Error::App(AppError::HatNotFound(self.id, hat_id)));
        }
        Ok(self.hats[(hat_id - 1) as usize].get())
    }

    /// Puts every button, axis and hat at rest, in ID order. It cannot fail.
    pub fn reset_all(&mut self) -> (r: Result<(), Error>)
        ensures
            r is Ok,
            final(self)@ == old(self)@.at_rest(),
    {
        let n_buttons = self.buttons.len();
        let mut i: usize = 0;
        while i < n_buttons
            invariant
                i <= n_buttons == self.buttons.len() == old(self).buttons.len(),
                self.id == old(self).id,
                self.axes == old(self).axes,
                self.hats == old(self).hats,
                forall|j: int| 0 <= j < i ==> #[trigger] self.buttons@[j]@ == (ButtonView {
                    state: ButtonState::Released,
                    ..old(self).buttons@[j]@
                }),
                forall|j: int| i <= j < n_buttons ==> #[trigger] self.buttons@[j]
                    == old(self).buttons@[j],
            decreases n_buttons - i,
        {
            let mut button = self.buttons[i];
            button.reset();
            self.buttons.set(i, button);
            i = i + 1;
        }
        let n_axes = self.axes.len();
        let mut i: usize = 0;
        while i < n_axes
            invariant
                i <= n_axes == self.axes.len() == old(self).axes.len(),
                self.id == old(self).id,
                self.buttons@.len() == old(self).buttons@.len(),
                forall|j: int| 0 <= j < self.buttons@.len() ==> #[trigger] self.buttons@[j]@
                    == (ButtonView { state: ButtonState::Released, ..old(self).buttons@[j]@ }),
                self.hats == old(self).hats,
                forall|j: int| 0 <= j < i ==> #[trigger] self.axes@[j]@ == (AxisView {
                    value: 0,
                    ..old(self).axes@[j]@
                }),
                forall|j: int| i <= j < n_axes ==> #[trigger] self.axes@[j] == old(self).axes@[j],
            decreases n_axes - i,
        {
            self.axes[i].reset();
            i = i + 1;
        }
        let n_hats = self.hats.len();
        let mut i: usize = 0;
        while i < n_hats
            invariant
                i <= n_hats == self.hats.len() == old(self).hats.len(),
                self.id == old(self).id,
                self.buttons@.len() == old(self).buttons@.len(),
                forall|j: int| 0 <= j < self.buttons@.len() ==> #[trigger] self.buttons@[j]@
                    == (ButtonView { state: ButtonState::Released, ..old(self).buttons@[j]@ }),
                self.axes@.len() == old(self).axes@.len(),
                forall|j: int| 0 <= j < self.axes@.len() ==> #[trigger] self.axes@[j]@
                    == (AxisView { value: 0, ..old(self).axes@[j]@ }),
                forall|j: int| 0 <= j < i ==> #[trigger] self.hats@[j]@ == (HatView {
                    state: old(self).hats@[j]@.state.spec_rest(),
                    ..old(self).hats@[j]@
                }),
                forall|j: int| i <= j < n_hats ==> #[trigger] self.hats@[j] == old(self).hats@[j],
            decreases n_hats - i,
        {
            let mut hat = self.hats[i];
            hat.reset();
            self.hats.set(i, hat);
            i = i + 1;
        }
        assert(self@.buttons =~= old(self)@.at_rest().buttons);
        assert(self@.axes =~= old(self)@.at_rest().axes);
        assert(self@.hats =~= old(self)@.at_rest().hats);
        Ok(())
    }

    /// Whether the device's hats are four-way or continuous, told by the state of its first
    /// hat. A device without hats reports a centered four-way hat.
    pub fn hat_type(&self) -> (r: HatState)
        ensures
            r == self@.hat_type(),
    {
        if self.hats.len() == 0 {
            HatState::Discrete(FourWayHat::Centered)
        } else {
            self.hats[0].get()
        }
    }
}

} // verus!
