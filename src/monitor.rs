use vstd::prelude::*;
use crate::activity::{ActivityState, classify, spec_classify};
use crate::settings::Settings;

verus! {

/// Which step of a run failed.
#[derive(Clone, Copy, Debug, PartialEq, Eq, Structural)]
pub enum MonitorError {
    /// The idle source could not report the idle time.
    Query,
    /// The idle hint could not be set during the loop.
    RemoteCall,
    /// The last `false` idle hint after a graceful shutdown could not be set.
    Cleanup,
}

/// How a run ended.
#[derive(Clone, Copy, Debug, PartialEq, Eq, Structural)]
pub enum Outcome {
    Success,
    Failure(MonitorError),
}

/// Where the monitor stands: what it waits for next.
#[derive(Clone, Copy, Debug, PartialEq, Eq, Structural)]
pub enum Phase {
    /// Waiting for the poll interval to elapse or for a shutdown request.
    Waiting,
    /// An idle-time query is in flight.
    Sampling,
    /// The idle hint for this state is being set.
    Setting(ActivityState),
    /// The last `false` idle hint is being set after a shutdown request.
    Resetting,
    /// The run is over.
    Finished(Outcome),
}

/// What the driver reports back to the monitor.
#[derive(Clone, Copy, Debug, PartialEq, Eq, Structural)]
pub enum Event {
    /// A termination request was received.
    ShutdownRequested,
    /// The poll interval elapsed first.
    TimerElapsed,
    /// The idle source answered with this idle time, in milliseconds.
    Sampled(u64),
    /// The idle source could not answer.
    SampleFailed,
    /// The idle hint was set.
    HintSet,
    /// Setting the idle hint failed.
    HintFailed,
}

/// What the driver is asked to do next.
#[derive(Clone, Copy, Debug, PartialEq, Eq, Structural)]
pub enum Action {
    /// Wait for this many milliseconds, or until a shutdown request comes,
    /// whichever is first.
    Wait(u64),
    /// Query the idle source.
    Sample,
    /// Set the session's idle hint to this value.
    SetIdleHint(bool),
    /// Stop: the run ended this way.
    Exit(Outcome),
}

/// Something worth telling the user about a step.
#[derive(Clone, Copy, Debug, PartialEq, Eq, Structural)]
pub enum Notice {
    /// The user's state changed to this one.
    UserIs(ActivityState),
    /// A shutdown request ended the loop.
    ShutdownReceived,
    /// The idle hint was set back to false before exit.
    HintReset,
}

/// The monitor: its settings, the last state it reported, and its phase.
#[derive(Clone, Copy, Debug, PartialEq, Eq, Structural)]
pub struct Monitor {
    pub settings: Settings,
    pub activity: ActivityState,
    pub phase: Phase,
}

/// The phase that follows a successfully set idle hint.
pub open spec fn spec_after_hint(settings: Settings) -> Phase {
    if settings.one_shot {
        Phase::Finished(Outcome::Success)
    } else {
        Phase::Waiting
    }
}

/// The phase that follows a shutdown request.
pub open spec fn spec_after_shutdown(settings: Settings) -> Phase {
    if settings.spec_resets_on_exit() {
        Phase::Resetting
    } else {
        Phase::Finished(Outcome::Success)
    }
}

/// The notice and the next action that each event of a sequence gives, fed
/// one after another to a monitor.
pub open spec fn trace(m: Monitor, events: Seq<Event>) -> Seq<(Option<Notice>, Action)>
    decreases events.len(),
{
    if events.len() == 0 {
        Seq::empty()
    } else {
        let (m1, notice) = m.spec_next(events[0]);
        seq![(notice, m1.spec_action())] + trace(m1, events.drop_first())
    }
}

/// The monitor after a sequence of events.
pub open spec fn after(m: Monitor, events: Seq<Event>) -> Monitor
    decreases events.len(),
{
    if events.len() == 0 {
        m
    } else {
        after(m.spec_next(events[0]).0, events.drop_first())
    }
}

impl Monitor {
    /// A fresh monitor: the user counts as active, and a one-shot monitor
    /// samples at once while a continuous one starts by waiting.
    pub open spec fn spec_new(settings: Settings) -> Monitor {
        Monitor {
            settings,
            activity: ActivityState::Active,
            phase: if settings.one_shot {
                Phase::Sampling
            } else {
                Phase::Waiting
            },
        }
    }

    /// The action that the phase asks of the driver.
    pub open spec fn spec_action(self) -> Action {
        match self.phase {
            Phase::Waiting => Action::Wait(self.settings.poll_interval_ms),
            Phase::Sampling => Action::Sample,
            Phase::Setting(s) => Action::SetIdleHint(s.spec_hint()),
            Phase::Resetting => Action::SetIdleHint(false),
            Phase::Finished(o) => Action::Exit(o),
        }
    }

    /// The monitor after an event, and the notice that the event gives.
    /// An event that does not answer the pending action changes nothing.
    pub open spec fn spec_next(self, event: Event) -> (Monitor, Option<Notice>) {
        match (self.phase, event) {
            (Phase::Waiting, Event::ShutdownRequested) => (
                Monitor { phase: spec_after_shutdown(self.settings), ..self },
                Some(Notice::ShutdownReceived),
            ),
            (Phase::Waiting, Event::TimerElapsed) => (Monitor { phase: Phase::Sampling, ..self }, None),
            (Phase::Sampling, Event::Sampled(idle_ms)) => (
                Monitor {
                    phase: Phase::Setting(spec_classify(idle_ms, self.settings.threshold_ms)),
                    ..self
                },
                None,
            ),
            (Phase::Sampling, Event::SampleFailed) => (
                Monitor { phase: Phase::Finished(Outcome::Failure(MonitorError::Query)), ..self },
                None,
            ),
            (Phase::Setting(s), Event::HintSet) => (
                Monitor { activity: s, phase: spec_after_hint(self.settings), ..self },
                if s != self.activity {
                    Some(Notice::UserIs(s))
                } else {
                    None
                },
            ),
            (Phase::Setting(_), Event::HintFailed) => (
                Monitor {
                    phase: Phase::Finished(Outcome::Failure(MonitorError::RemoteCall)),
                    ..self
                },
                None,
            ),
            (Phase::Resetting, Event::HintSet) => (
                Monitor { phase: Phase::Finished(Outcome::Success), ..self },
                Some(Notice::HintReset),
            ),
            (Phase::Resetting, Event::HintFailed) => (
                Monitor {
                    phase: Phase::Finished(Outcome::Failure(MonitorError::Cleanup)),
                    ..self
                },
                None,
            ),
            _ => (self, None),
        }
    }

    pub fn new(settings: Settings) -> (r: Monitor)
        ensures
            r == Monitor::spec_new(settings),
    {
        Monitor {
            settings,
            activity: ActivityState::Active,
            phase: if settings.one_shot {
                Phase::Sampling
            } else {
                Phase::Waiting
            },
        }
    }

    /// The action that the driver is to perform now.
    pub fn action(&self) -> (r: Action)
        ensures
            r == self.spec_action(),
    {
        match self.phase {
            Phase::Waiting => Action::Wait(self.settings.poll_interval_ms),
            Phase::Sampling => Action::Sample,
            Phase::Setting(s) => Action::SetIdleHint(s.hint()),
            Phase::Resetting => Action::SetIdleHint(false),
            Phase::Finished(o) => Action::Exit(o),
        }
    }

    /// Whether the run is over.
    pub fn is_finished(&self) -> (r: bool)
        ensures
            r == (self.phase is Finished),
    {
        match self.phase {
            Phase::Finished(_) => true,
            _ => false,
        }
    }

    /// Takes in the result of the pending action and moves to the next phase.
    pub fn step(&mut self, event: Event) -> (notice: Option<Notice>)
        ensures
            (*final(self), notice) == old(self).spec_next(event),
            final(self).settings == old(self).settings,
    {
        let settings = self.settings;
        match (self.phase, event) {
            (Phase::Waiting, Event::ShutdownRequested) => {
                self.phase = if settings.resets_on_exit() {
                    Phase::Resetting
                } else {
                    Phase::Finished(Outcome::Success)
                };
                Some(Notice::ShutdownReceived)
            },
            (Phase::Waiting, Event::TimerElapsed) => {
                self.phase = Phase::Sampling;
                None
            },
            (Phase::Sampling, Event::Sampled(idle_ms)) => {
                self.phase = Phase::Setting(classify(idle_ms, settings.threshold_ms));
                None
            },
            (Phase::Sampling, Event::SampleFailed) => {
                self.phase = Phase::Finished(Outcome::Failure(MonitorError::Query));
                None
            },
            (Phase::Setting(s), Event::HintSet) => {
                let changed = s != self.activity;
                self.activity = s;
                self.phase = if settings.one_shot {
                    Phase::Finished(Outcome::Success)
                } else {
                    Phase::Waiting
                };
                if changed {
                    Some(Notice::UserIs(s))
                } else {
                    None
                }
            },
            (Phase::Setting(_), Event::HintFailed) => {
                self.phase = Phase::Finished(Outcome::Failure(MonitorError::RemoteCall));
                None
            },
            (Phase::Resetting, Event::HintSet) => {
                self.phase = Phase::Finished(Outcome::Success);
                Some(Notice::HintReset)
            },
            (Phase::Resetting, Event::HintFailed) => {
                self.phase = Phase::Finished(Outcome::Failure(MonitorError::Cleanup));
                None
            },
            _ => None,
        }
    }

    /// Feeds a recorded sequence of events to the monitor, one after another,
    /// and returns for each the notice it gave and the action that followed.
    pub fn replay(&mut self, events: &Vec<Event>) -> (r: Vec<(Option<Notice>, Action)>)
        ensures
            r@ == trace(*old(self), events@),
            *final(self) == after(*old(self), events@),
    {
        let ghost start = *self;
        let mut out: Vec<(Option<Notice>, Action)> = Vec::new();
        let mut i: usize = 0;
        proof {
            assert(events@.skip(0) == events@);
            assert(events@.take(0) == Seq::<Event>::empty());
        }
        while i < events.len()
            invariant
                i <= events@.len(),
                *self == after(start, events@.take(i as int)),
                trace(start, events@) == out@ + trace(*self, events@.skip(i as int)),
            decreases events@.len() - i,
        {
            proof {
                lemma_trace_split(start, events@, i as int);
            }
            let notice = self.step(events[i]);
            let action = self.action();
            out.push((notice, action));
            i = i + 1;
        }
        proof {
            assert(events@.take(events@.len() as int) == events@);
        }
        out
    }
}

/// Feeding the first `i + 1` events is feeding the first `i` and then one more.
proof fn lemma_after_take(m: Monitor, events: Seq<Event>, i: int)
    requires
        0 <= i < events.len(),
    ensures
        after(m, events.take(i + 1)) == after(m, events.take(i)).spec_next(events[i]).0,
    decreases i,
{
    if i > 0 {
        let rest = events.drop_first();
        lemma_after_take(m.spec_next(events[0]).0, rest, i - 1);
        assert(events.take(i).drop_first() == rest.take(i - 1));
        assert(events.take(i + 1).drop_first() == rest.take(i));
        assert(events.take(i)[0] == events[0]);
        assert(events.take(i + 1)[0] == events[0]);
        assert(rest[i - 1] == events[i]);
        assert(after(m, events.take(i)) == after(m.spec_next(events[0]).0, rest.take(i - 1)));
        assert(after(m, events.take(i + 1)) == after(m.spec_next(events[0]).0, rest.take(i)));
    } else {
        assert(events.take(1)[0] == events[0]);
        let m1 = m.spec_next(events[0]).0;
        assert(after(m1, Seq::<Event>::empty()) == m1);
        assert(after(m, events.take(1)) == after(m1, events.take(1).drop_first()));
        assert(after(m, Seq::<Event>::empty()) == m);
        assert(events.take(1).drop_first() == Seq::<Event>::empty());
        assert(events.take(0) == Seq::<Event>::empty());
    }
}

/// One step of a replay: the state and the rest of the trace move on by one event.
proof fn lemma_trace_split(m: Monitor, events: Seq<Event>, i: int)
    requires
        0 <= i < events.len(),
    ensures
        after(m, events.take(i + 1)) == after(m, events.take(i)).spec_next(events[i]).0,
        trace(after(m, events.take(i)), events.skip(i)) == seq![
            (
                after(m, events.take(i)).spec_next(events[i]).1,
                after(m, events.take(i + 1)).spec_action(),
            ),
        ] + trace(after(m, events.take(i + 1)), events.skip(i + 1)),
{
    lemma_after_take(m, events, i);
    assert(events.skip(i).drop_first() == events.skip(i + 1));
    assert(events.skip(i)[0] == events[i]);
}

} // verus!
