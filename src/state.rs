use vstd::prelude::*;

verus! {

/// The fan's current duty mode: either the driver controls the duty on its
/// own, or a forced duty value is in effect.
#[derive(Clone, Copy, Debug, PartialEq, Eq, Structural)]
pub enum ControlState {
    Automatic,
    Override(u8),
}

/// The largest duty value, in the standard hwmon pwm unit.
pub const MAX_DUTY: u8 = 255;

impl ControlState {
    /// The duty value forced by this state, if any.
    pub open spec fn forced_duty(self) -> Option<int> {
        match self {
            ControlState::Automatic => None,
            ControlState::Override(d) => Some(d as int),
        }
    }

    /// A state is either automatic control or an override with a duty in
    /// the range 0 to 255.
    pub open spec fn is_valid(self) -> bool {
        ||| self is Automatic
        ||| (self matches ControlState::Override(d) && 0 <= d <= MAX_DUTY)
    }

    /// The duty value to hand to the device: `None` for automatic control.
    pub fn duty(&self) -> (r: Option<u8>)
        ensures
            r matches Some(d) ==> self.forced_duty() == Some(d as int),
            r is None <==> self.forced_duty() is None,
    {
        match self {
            ControlState::Automatic => None,
            ControlState::Override(d) => Some(*d),
        }
    }
}

/// Every value of the type is a valid state: there is no override outside
/// the duty range and no value that is neither automatic nor an override.
pub proof fn lemma_state_always_valid(s: ControlState)
    ensures
        s.is_valid(),
{
}

} // verus!
