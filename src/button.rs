use vstd::prelude::*;

verus! {

/// Whether a button is held down.
#[derive(Debug, Clone, Copy, PartialEq, Eq, Structural, Hash)]
pub enum ButtonState {
    Released,
    Pressed,
}

impl ButtonState {
    /// The rest state of a button.
    pub fn default() -> (r: ButtonState)
        ensures
            r == ButtonState::Released,
    {
        ButtonState::Released
    }

    /// The value the driver takes for this state.
    pub open spec fn spec_driver_value(self) -> i32 {
        match self {
            ButtonState::Released => 0,
            ButtonState::Pressed => 1,
        }
    }

    /// The value the driver takes for this state: 1 when pressed, 0 when released.
    pub fn driver_value(self) -> (r: i32)
        ensures
            r == self.spec_driver_value(),
    {
        match self {
            ButtonState::Released => 0,
            ButtonState::Pressed => 1,
        }
    }
}

/// What a button holds: its ID and its state.
pub struct ButtonView {
    pub id: u8,
    pub state: ButtonState,
}

/// Current state of an enabled device button.
///
/// IDs range over 1..=128, as the driver numbers them.
#[derive(Debug, Clone, Copy)]
pub struct Button {
    id: u8,
    state: ButtonState,
}

impl View for Button {
    type V = ButtonView;

    closed spec fn view(&self) -> ButtonView {
        ButtonView { id: self.id, state: self.state }
    }
}

impl Button {
    /// A button with the given ID at rest.
    pub(crate) fn released(id: u8) -> (r: Button)
        ensures
            r@ == (ButtonView { id, state: ButtonState::Released }),
    {
        Button { id, state: ButtonState::Released }
    }

    /// The button's ID.
    pub fn id(&self) -> (r: u8)
        ensures
            r == self@.id,
    {
        self.id
    }

    pub fn get(&self) -> (r: ButtonState)
        ensures
            r == self@.state,
    {
        self.state
    }

    pub fn set(&mut self, value: ButtonState)
        ensures
            final(self)@ == (ButtonView { state: value, ..old(self)@ }),
    {
        self.state = value;
    }

    pub fn reset(&mut self)
        ensures
            final(self)@ == (ButtonView { state: ButtonState::Released, ..old(self)@ }),
    {
        self.state = ButtonState::default();
    }
}

} // verus!
