use vstd::prelude::*;

verus! {

/// Milliseconds in one second.
pub const MS_PER_SEC: u64 = 1000;

/// The shortest time between two samples, in milliseconds.
pub const MIN_POLL_INTERVAL_MS: u64 = 5000;

/// The poll interval for a threshold: a tenth of it, but never under the floor.
pub open spec fn spec_poll_interval(threshold_ms: u64) -> u64 {
    if threshold_ms / 10 >= MIN_POLL_INTERVAL_MS {
        threshold_ms / 10
    } else {
        MIN_POLL_INTERVAL_MS
    }
}

/// Computes the poll interval, in milliseconds, for a threshold in milliseconds.
pub fn poll_interval_ms(threshold_ms: u64) -> (r: u64)
    ensures
        r == spec_poll_interval(threshold_ms),
        r >= MIN_POLL_INTERVAL_MS,
        r >= threshold_ms / 10,
        r == threshold_ms / 10 || r == MIN_POLL_INTERVAL_MS,
{
    let tenth = threshold_ms / 10;
    if tenth >= MIN_POLL_INTERVAL_MS {
        tenth
    } else {
        MIN_POLL_INTERVAL_MS
    }
}

/// Converts a threshold given in whole seconds to milliseconds; `None` where
/// the result does not fit in a `u64`.
pub fn threshold_ms_from_secs(secs: u64) -> (r: Option<u64>)
    ensures
        secs * MS_PER_SEC <= u64::MAX ==> r == Some((secs * MS_PER_SEC) as u64),
        secs * MS_PER_SEC > u64::MAX ==> r is None,
{
    secs.checked_mul(MS_PER_SEC)
}

/// What a monitor is configured with for its whole lifetime.
#[derive(Clone, Copy, Debug, PartialEq, Eq, Structural)]
pub struct Settings {
    /// Idle time, in milliseconds, from which on the user counts as idle.
    pub threshold_ms: u64,
    /// Time between two samples, in milliseconds.
    pub poll_interval_ms: u64,
    /// Whether the idle hint is set back to false after a graceful shutdown.
    pub reset_on_exit: bool,
    /// Whether a single sample is taken and acted on, with no loop.
    pub one_shot: bool,
}

impl Settings {
    /// The threshold is positive and the interval is derived from it.
    pub open spec fn wf(self) -> bool {
        &&& self.threshold_ms > 0
        &&& self.poll_interval_ms == spec_poll_interval(self.threshold_ms)
    }

    /// Whether a graceful end of the run owes one last `false` idle hint.
    pub open spec fn spec_resets_on_exit(self) -> bool {
        self.reset_on_exit && !self.one_shot
    }

    pub fn new(threshold_ms: u64, reset_on_exit: bool, one_shot: bool) -> (r: Settings)
        requires
            threshold_ms > 0,
        ensures
            r.wf(),
            r.threshold_ms == threshold_ms,
            r.reset_on_exit == reset_on_exit,
            r.one_shot == one_shot,
    {
        Settings {
            threshold_ms,
            poll_interval_ms: poll_interval_ms(threshold_ms),
            reset_on_exit,
            one_shot,
        }
    }

    pub fn resets_on_exit(&self) -> (r: bool)
        ensures
            r == self.spec_resets_on_exit(),
    {
        self.reset_on_exit && !self.one_shot
    }
}

} // verus!
