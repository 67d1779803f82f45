use vstd::prelude::*;

verus! {

/// What an axis holds: its ID, its value and its descriptors.
pub struct AxisView {
    pub id: u32,
    pub value: i32,
    pub display_name: Seq<char>,
    pub hid_usage: u32,
}

/// Current state of an enabled device axis.
///
/// IDs range over 1..=16, as the driver numbers its axis slots. The display name and the HID
/// usage are fixed when the axis is discovered; only the value changes.
#[derive(Debug)]
pub struct Axis {
    id: u32,
    value: i32,
    display_name: String,
    hid_usage: u32,
}

impl View for Axis {
    type V = AxisView;

    closed spec fn view(&self) -> AxisView {
        AxisView {
            id: self.id,
            value: self.value,
            display_name: self.display_name@,
            hid_usage: self.hid_usage,
        }
    }
}

impl Clone for Axis {
    fn clone(&self) -> (r: Self)
        ensures
            r@ == self@,
    {
        Axis {
            id: self.id,
            value: self.value,
            display_name: self.display_name.clone(),
            hid_usage: self.hid_usage,
        }
    }
}

impl Axis {
    /// An axis at rest, with the given ID and descriptors.
    pub(crate) fn at_rest(id: u32, display_name: String, hid_usage: u32) -> (r: Axis)
        ensures
            r@ == (AxisView { id, value: 0, display_name: display_name@, hid_usage }),
    {
        Axis { id, value: 0, display_name, hid_usage }
    }

    /// The axis's ID.
    pub fn id(&self) -> (r: u32)
        ensures
            r == self@.id,
    {
        self.id
    }

    /// The axis's HID usage code, read without a mutable borrow.
    pub(crate) fn hid_usage_of(&self) -> (r: u32)
        ensures
            r == self@.hid_usage,
    {
        self.hid_usage
    }

    pub fn get(&self) -> (r: i32)
        ensures
            r == self@.value,
    {
        self.value
    }

    pub fn set(&mut self, value: i32)
        ensures
            final(self)@ == (AxisView { value, ..old(self)@ }),
    {
        self.value = value;
    }

    pub fn reset(&mut self)
        ensures
            final(self)@ == (AxisView { value: 0, ..old(self)@ }),
    {
        self.value = 0;
    }

    pub fn display_name(&mut self) -> (r: String)
        ensures
            r@ == old(self)@.display_name,
            final(self)@ == old(self)@,
    {
        self.display_name.clone()
    }

    pub fn hid_usage(&mut self) -> (r: u32)
        ensures
            r == old(self)@.hid_usage,
            final(self)@ == old(self)@,
    {
        self.hid_usage
    }
}

} // verus!
