use vstd::prelude::*;

verus! {

/// Whether the user counts as present at the keyboard or away from it.
#[derive(Clone, Copy, Debug, PartialEq, Eq, Structural)]
pub enum ActivityState {
    Active,
    Idle,
}

/// An idle time at or above the threshold is idle; below it, active.
pub open spec fn spec_classify(idle_ms: u64, threshold_ms: u64) -> ActivityState {
    if idle_ms >= threshold_ms {
        ActivityState::Idle
    } else {
        ActivityState::Active
    }
}

/// Classifies a sampled idle time (milliseconds since the last input event)
/// against the idle threshold (milliseconds).
pub fn classify(idle_ms: u64, threshold_ms: u64) -> (r: ActivityState)
    ensures
        r == spec_classify(idle_ms, threshold_ms),
        r == ActivityState::Idle <==> idle_ms >= threshold_ms,
{
    if idle_ms >= threshold_ms {
        ActivityState::Idle
    } else {
        ActivityState::Active
    }
}

impl ActivityState {
    /// The value of the session's idle hint that stands for this state.
    pub open spec fn spec_hint(self) -> bool {
        self == ActivityState::Idle
    }

    pub fn hint(&self) -> (r: bool)
        ensures
            r == self.spec_hint(),
    {
        match self {
            ActivityState::Active => false,
            ActivityState::Idle => true,
        }
    }
}

} // verus!
