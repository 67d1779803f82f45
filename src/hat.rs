use vstd::prelude::*;

verus! {

/// Direction of a four-way hat switch.
#[derive(Debug, Clone, Copy, PartialEq, Eq, Structural, Hash)]
pub enum FourWayHat {
    Centered,
    North,
    East,
    South,
    West,
}

impl FourWayHat {
    /// The value the driver takes for this direction.
    pub open spec fn spec_driver_value(self) -> int {
        match self {
            FourWayHat::Centered => -1,
            FourWayHat::North => 0,
            FourWayHat::East => 1,
            FourWayHat::South => 2,
            FourWayHat::West => 3,
        }
    }

    /// The value the driver takes for this direction: -1 when centered, else 0 to 3 clockwise
    /// from north.
    pub fn driver_value(self) -> (r: i32)
        ensures
            r as int == self.spec_driver_value(),
    {
        match self {
            FourWayHat::Centered => -1,
            FourWayHat::North => 0,
            FourWayHat::East => 1,
            FourWayHat::South => 2,
            FourWayHat::West => 3,
        }
    }
}

impl Default for FourWayHat {
    fn default() -> (r: Self)
        ensures
            r == FourWayHat::Centered,
    {
        FourWayHat::Centered
    }
}

/// The sentinel angle of a continuous hat that points nowhere.
pub const CONTINUOUS_CENTERED: u32 = 0xFFFF_FFFF;

/// The state of either a four-way hat or a continuous 360° hat.
///
/// A continuous hat holds its angle in hundredths of a degree, in `0..36000`, or
/// [`CONTINUOUS_CENTERED`] when it points nowhere.
#[derive(Debug, Clone, Copy, PartialEq, Eq, Structural, Hash)]
pub enum HatState {
    Discrete(FourWayHat),
    Continuous(u32),
}

impl Default for HatState {
    fn default() -> (r: Self)
        ensures
            r == HatState::Discrete(FourWayHat::Centered),
    {
        HatState::Discrete(FourWayHat::Centered)
    }
}

impl HatState {
    /// The rest state of a hat of the same kind.
    pub open spec fn spec_rest(self) -> HatState {
        match self {
            HatState::Discrete(_) => HatState::Discrete(FourWayHat::Centered),
            HatState::Continuous(_) => HatState::Continuous(CONTINUOUS_CENTERED),
        }
    }

    fn reset(&mut self)
        ensures
            *final(self) == old(self).spec_rest(),
    {
        *self = match self {
            HatState::Discrete(_) => HatState::Discrete(FourWayHat::Centered),
            HatState::Continuous(_) => HatState::Continuous(CONTINUOUS_CENTERED),
        };
    }
}

/// What a hat holds: its ID and its state.
pub struct HatView {
    pub id: u8,
    pub state: HatState,
}

/// Current state of an enabled device hat switch.
///
/// IDs range over 1..=4, as the driver numbers them.
#[derive(Debug, Clone, Copy)]
pub struct Hat {
    id: u8,
    state: HatState,
}

impl View for Hat {
    type V = HatView;

    closed spec fn view(&self) -> HatView {
        HatView { id: self.id, state: self.state }
    }
}

impl Hat {
    /// A hat with the given ID and state.
    pub(crate) fn with_state(id: u8, state: HatState) -> (r: Hat)
        ensures
            r@ == (HatView { id, state }),
    {
        Hat { id, state }
    }

    /// The hat's ID.
    pub fn id(&self) -> (r: u8)
        ensures
            r == self@.id,
    {
        self.id
    }

    pub fn get(&self) -> (r: HatState)
        ensures
            r == self@.state,
    {
        self.state
    }

    pub fn set(&mut self, state: HatState)
        ensures
            final(self)@ == (HatView { state, ..old(self)@ }),
    {
        self.state = state;
    }

    pub fn reset(&mut self)
        ensures
            final(self)@ == (HatView { state: old(self)@.state.spec_rest(), ..old(self)@ }),
    {
        self.state.reset();
    }
}

} // verus!
