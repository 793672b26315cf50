use vstd::prelude::*;

verus! {

/// Number of logical buttons in the canonical layout.
pub const BUTTON_COUNT: u32 = 17;

/// A logical button on a gamepad: a closed enumeration of the canonical
/// layout (four face buttons, four shoulder/trigger buttons, two
/// center-cluster buttons, two stick-click buttons, four D-pad directions
/// and one mode button).
///
/// The enumeration order doubles as the bit position each button occupies
/// in the per-gamepad pressed bitmasks.
#[derive(Copy, Clone, Debug, PartialEq, Eq, PartialOrd, Ord, Hash, Structural)]
pub enum Button {
    /// Lowermost button in the right cluster.
    ActionDown,
    /// Rightmost button in the right cluster.
    ActionRight,
    /// Leftmost button in the right cluster.
    ActionLeft,
    /// Topmost button in the right cluster.
    ActionUp,
    /// Top left front button.
    FrontLeftUpper,
    /// Top right front button.
    FrontRightUpper,
    /// Bottom left front button.
    FrontLeftLower,
    /// Bottom right front button.
    FrontRightLower,
    /// Left button in the center cluster (select/back).
    LeftCenterCluster,
    /// Right button in the center cluster (start/forward).
    RightCenterCluster,
    /// Left stick pressed button.
    LeftStick,
    /// Right stick pressed button.
    RightStick,
    /// D-pad up button.
    DPadUp,
    /// D-pad down button.
    DPadDown,
    /// D-pad left button.
    DPadLeft,
    /// D-pad right button.
    DPadRight,
    /// Mode button.
    Mode,
}

impl Button {
    /// The bit position of this button, in enumeration order.
    pub open spec fn index_spec(self) -> u32 {
        match self {
            Button::ActionDown => 0,
            Button::ActionRight => 1,
            Button::ActionLeft => 2,
            Button::ActionUp => 3,
            Button::FrontLeftUpper => 4,
            Button::FrontRightUpper => 5,
            Button::FrontLeftLower => 6,
            Button::FrontRightLower => 7,
            Button::LeftCenterCluster => 8,
            Button::RightCenterCluster => 9,
            Button::LeftStick => 10,
            Button::RightStick => 11,
            Button::DPadUp => 12,
            Button::DPadDown => 13,
            Button::DPadLeft => 14,
            Button::DPadRight => 15,
            Button::Mode => 16,
        }
    }

    /// The single-bit mask of this button in a pressed bitmask.
    pub open spec fn mask_spec(self) -> u32 {
        1u32 << self.index_spec()
    }

    /// The bit position of this button, as executable code.
    pub fn bit_index(self) -> (r: u32)
        ensures
            r == self.index_spec(),
    {
        match self {
            Button::ActionDown => 0,
            Button::ActionRight => 1,
            Button::ActionLeft => 2,
            Button::ActionUp => 3,
            Button::FrontLeftUpper => 4,
            Button::FrontRightUpper => 5,
            Button::FrontLeftLower => 6,
            Button::FrontRightLower => 7,
            Button::LeftCenterCluster => 8,
            Button::RightCenterCluster => 9,
            Button::LeftStick => 10,
            Button::RightStick => 11,
            Button::DPadUp => 12,
            Button::DPadDown => 13,
            Button::DPadLeft => 14,
            Button::DPadRight => 15,
            Button::Mode => 16,
        }
    }

    /// All buttons, in enumeration order.
    pub fn all() -> (r: Vec<Button>)
        ensures
            r@.len() == BUTTON_COUNT,
            forall|i: int| 0 <= i < BUTTON_COUNT ==> r@[i] == button_of_index(i),
    {
        let mut r: Vec<Button> = Vec::new();
        r.push(Button::ActionDown);
        r.push(Button::ActionRight);
        r.push(Button::ActionLeft);
        r.push(Button::ActionUp);
        r.push(Button::FrontLeftUpper);
        r.push(Button::FrontRightUpper);
        r.push(Button::FrontLeftLower);
        r.push(Button::FrontRightLower);
        r.push(Button::LeftCenterCluster);
        r.push(Button::RightCenterCluster);
        r.push(Button::LeftStick);
        r.push(Button::RightStick);
        r.push(Button::DPadUp);
        r.push(Button::DPadDown);
        r.push(Button::DPadLeft);
        r.push(Button::DPadRight);
        r.push(Button::Mode);
        assert forall|i: int| 0 <= i < BUTTON_COUNT implies r@[i] == button_of_index(i) by {
            assert(r@ =~= seq![
                Button::ActionDown,
                Button::ActionRight,
                Button::ActionLeft,
                Button::ActionUp,
                Button::FrontLeftUpper,
                Button::FrontRightUpper,
                Button::FrontLeftLower,
                Button::FrontRightLower,
                Button::LeftCenterCluster,
                Button::RightCenterCluster,
                Button::LeftStick,
                Button::RightStick,
                Button::DPadUp,
                Button::DPadDown,
                Button::DPadLeft,
                Button::DPadRight,
                Button::Mode,
            ]);
        }
        r
    }
}

/// The button whose bit position is `i`, for `0 <= i < 17`.
pub open spec fn button_of_index(i: int) -> Button {
    if i == 0 {
        Button::ActionDown
    } else if i == 1 {
        Button::ActionRight
    } else if i == 2 {
        Button::ActionLeft
    } else if i == 3 {
        Button::ActionUp
    } else if i == 4 {
        Button::FrontLeftUpper
    } else if i == 5 {
        Button::FrontRightUpper
    } else if i == 6 {
        Button::FrontLeftLower
    } else if i == 7 {
        Button::FrontRightLower
    } else if i == 8 {
        Button::LeftCenterCluster
    } else if i == 9 {
        Button::RightCenterCluster
    } else if i == 10 {
        Button::LeftStick
    } else if i == 11 {
        Button::RightStick
    } else if i == 12 {
        Button::DPadUp
    } else if i == 13 {
        Button::DPadDown
    } else if i == 14 {
        Button::DPadLeft
    } else if i == 15 {
        Button::DPadRight
    } else {
        Button::Mode
    }
}

/// Bit positions and the enumeration are inverse to each other.
pub proof fn lemma_button_index(b: Button)
    ensures
        b.index_spec() < BUTTON_COUNT,
        button_of_index(b.index_spec() as int) == b,
{
}

} // verus!
