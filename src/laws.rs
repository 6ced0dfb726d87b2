//! What holds of every run of the monitor, stated over its transition model.
use vstd::prelude::*;
use crate::activity::{ActivityState, spec_classify};
use crate::monitor::{Action, Event, Monitor, MonitorError, Notice, Outcome, Phase, after, trace};
use crate::settings::Settings;

verus! {

/// The events of one tick: the timer elapses, the idle source answers with
/// this idle time, and the idle hint is set.
pub open spec fn tick_events(idle_ms: u64) -> Seq<Event> {
    seq![Event::TimerElapsed, Event::Sampled(idle_ms), Event::HintSet]
}

/// Feeding one event and then the rest.
proof fn lemma_trace_cons(m: Monitor, event: Event, rest: Seq<Event>)
    ensures
        trace(m, seq![event] + rest) == seq![(m.spec_next(event).1, m.spec_next(event).0.spec_action())]
            + trace(m.spec_next(event).0, rest),
        after(m, seq![event] + rest) == after(m.spec_next(event).0, rest),
{
    let s = seq![event] + rest;
    assert(s[0] == event);
    assert(s.drop_first() == rest);
}

/// Feeding two sequences one after the other is feeding their concatenation.
pub proof fn trace_append(m: Monitor, a: Seq<Event>, b: Seq<Event>)
    ensures
        trace(m, a + b) == trace(m, a) + trace(after(m, a), b),
        after(m, a + b) == after(after(m, a), b),
    decreases a.len(),
{
    if a.len() == 0 {
        assert(a + b == b);
        assert(trace(m, a) + trace(after(m, a), b) == trace(m, b));
    } else {
        let m1 = m.spec_next(a[0]).0;
        trace_append(m1, a.drop_first(), b);
        assert((a + b).drop_first() == a.drop_first() + b);
        assert((a + b)[0] == a[0]);
        assert(trace(m, a + b) == seq![(m.spec_next(a[0]).1, m1.spec_action())]
            + trace(m1, a.drop_first() + b));
    }
}

/// Once a run is over, nothing that happens afterwards leads to another call
/// or another notice: every later event leaves the monitor as it is and the
/// only action is to exit with the same outcome.
pub proof fn finished_run_is_final(m: Monitor, events: Seq<Event>)
    requires
        m.phase is Finished,
    ensures
        after(m, events) == m,
        trace(m, events) == Seq::new(events.len(), |i: int| (None::<Notice>, m.spec_action())),
    decreases events.len(),
{
    if events.len() > 0 {
        finished_run_is_final(m, events.drop_first());
        assert(trace(m, events) == Seq::new(events.len(), |i: int| (None::<Notice>, m.spec_action())));
    } else {
        assert(trace(m, events) == Seq::new(events.len(), |i: int| (None::<Notice>, m.spec_action())));
    }
}

/// Every tick of a continuous run sets the idle hint from the sample, whether
/// or not the classification changed; a notice comes only with a change, and
/// the monitor then remembers the new state and waits again.
pub proof fn tick_sets_hint_every_time(m: Monitor, idle_ms: u64)
    requires
        m.phase == Phase::Waiting,
        !m.settings.one_shot,
    ensures
        ({
            let c = spec_classify(idle_ms, m.settings.threshold_ms);
            &&& trace(m, tick_events(idle_ms)) == seq![
                (None::<Notice>, Action::Sample),
                (None::<Notice>, Action::SetIdleHint(c.spec_hint())),
                (
                    if c != m.activity {
                        Some(Notice::UserIs(c))
                    } else {
                        None
                    },
                    Action::Wait(m.settings.poll_interval_ms),
                ),
            ]
            &&& after(m, tick_events(idle_ms)) == (Monitor { activity: c, ..m })
        }),
{
    let c = spec_classify(idle_ms, m.settings.threshold_ms);
    let m1 = Monitor { phase: Phase::Sampling, ..m };
    let m2 = Monitor { phase: Phase::Setting(c), ..m };
    let m3 = Monitor { activity: c, ..m };
    let e2 = seq![Event::HintSet];
    let e1 = seq![Event::Sampled(idle_ms)] + e2;
    assert(tick_events(idle_ms) == seq![Event::TimerElapsed] + e1);
    lemma_trace_cons(m, Event::TimerElapsed, e1);
    lemma_trace_cons(m1, Event::Sampled(idle_ms), e2);
    lemma_trace_cons(m2, Event::HintSet, Seq::empty());
    assert(e2 == seq![Event::HintSet] + Seq::<Event>::empty());
    assert(trace(m3, Seq::<Event>::empty()) == Seq::<(Option<Notice>, Action)>::empty());
    assert(after(m3, Seq::<Event>::empty()) == m3);
}

/// Two ticks in a row that classify alike both set the idle hint, and the
/// second gives no notice.
pub proof fn repeated_classification_notifies_once(m: Monitor, first_ms: u64, second_ms: u64)
    requires
        m.phase == Phase::Waiting,
        !m.settings.one_shot,
        spec_classify(first_ms, m.settings.threshold_ms) == spec_classify(
            second_ms,
            m.settings.threshold_ms,
        ),
    ensures
        ({
            let c = spec_classify(first_ms, m.settings.threshold_ms);
            let t = trace(m, tick_events(first_ms) + tick_events(second_ms));
            &&& t.len() == 6
            &&& t[1].1 == Action::SetIdleHint(c.spec_hint())
            &&& t[4].1 == Action::SetIdleHint(c.spec_hint())
            &&& t[5].0 is None
        }),
{
    let c = spec_classify(first_ms, m.settings.threshold_ms);
    trace_append(m, tick_events(first_ms), tick_events(second_ms));
    tick_sets_hint_every_time(m, first_ms);
    let m1 = Monitor { activity: c, ..m };
    tick_sets_hint_every_time(m1, second_ms);
}

/// A shutdown request that is already pending when a continuous run starts
/// ends it before any sample or idle hint of a tick: the one call left is the
/// final `false` idle hint, unless that is switched off.
pub proof fn pending_shutdown_stops_before_any_tick(settings: Settings)
    requires
        !settings.one_shot,
    ensures
        Monitor::spec_new(settings).spec_action() == Action::Wait(settings.poll_interval_ms),
        settings.reset_on_exit ==> trace(
            Monitor::spec_new(settings),
            seq![Event::ShutdownRequested, Event::HintSet],
        ) == seq![
            (Some(Notice::ShutdownReceived), Action::SetIdleHint(false)),
            (Some(Notice::HintReset), Action::Exit(Outcome::Success)),
        ],
        !settings.reset_on_exit ==> trace(
            Monitor::spec_new(settings),
            seq![Event::ShutdownRequested],
        ) == seq![(Some(Notice::ShutdownReceived), Action::Exit(Outcome::Success))],
{
    let m = Monitor::spec_new(settings);
    let m1 = m.spec_next(Event::ShutdownRequested).0;
    let m2 = m1.spec_next(Event::HintSet).0;
    lemma_trace_cons(m, Event::ShutdownRequested, seq![Event::HintSet]);
    lemma_trace_cons(m1, Event::HintSet, Seq::empty());
    lemma_trace_cons(m, Event::ShutdownRequested, Seq::empty());
    assert(seq![Event::ShutdownRequested, Event::HintSet] == seq![Event::ShutdownRequested] + seq![
        Event::HintSet,
    ]);
    assert(seq![Event::HintSet] == seq![Event::HintSet] + Seq::<Event>::empty());
    assert(seq![Event::ShutdownRequested] == seq![Event::ShutdownRequested] + Seq::<Event>::empty());
    assert(trace(m2, Seq::<Event>::empty()) == Seq::<(Option<Notice>, Action)>::empty());
    assert(trace(m1, Seq::<Event>::empty()) == Seq::<(Option<Notice>, Action)>::empty());
}

/// With the final reset switched off, a shutdown request ends the run at once:
/// no further idle hint is set, so the last one is the last tick's.
pub proof fn suppressed_reset_sets_no_final_hint(m: Monitor)
    requires
        m.phase == Phase::Waiting,
        !m.settings.reset_on_exit,
    ensures
        m.spec_next(Event::ShutdownRequested) == (
            (Monitor { phase: Phase::Finished(Outcome::Success), ..m }),
            Some(Notice::ShutdownReceived),
        ),
{
}

/// The final `false` idle hint is reached only from the wait of a continuous
/// run that resets on exit, and only by a shutdown request; it is set at most
/// once, since either answer to it ends the run.
pub proof fn final_reset_only_after_shutdown(m: Monitor, event: Event)
    ensures
        m.phase != Phase::Resetting && m.spec_next(event).0.phase == Phase::Resetting ==> {
            &&& m.phase == Phase::Waiting
            &&& event == Event::ShutdownRequested
            &&& m.settings.spec_resets_on_exit()
        },
        m.phase == Phase::Resetting && (event == Event::HintSet || event == Event::HintFailed)
            ==> m.spec_next(event).0.phase is Finished,
{
}

/// A one-shot run takes one sample, sets the idle hint from it once, gives a
/// notice only when the user is idle, and ends without a final reset.
pub proof fn one_shot_is_single_cycle(settings: Settings, idle_ms: u64)
    requires
        settings.one_shot,
    ensures
        Monitor::spec_new(settings).spec_action() == Action::Sample,
        ({
            let c = spec_classify(idle_ms, settings.threshold_ms);
            trace(Monitor::spec_new(settings), seq![Event::Sampled(idle_ms), Event::HintSet]) == seq![
                (None::<Notice>, Action::SetIdleHint(c.spec_hint())),
                (
                    if c == ActivityState::Idle {
                        Some(Notice::UserIs(ActivityState::Idle))
                    } else {
                        None
                    },
                    Action::Exit(Outcome::Success),
                ),
            ]
        }),
{
    let m = Monitor::spec_new(settings);
    let m1 = m.spec_next(Event::Sampled(idle_ms)).0;
    let m2 = m1.spec_next(Event::HintSet).0;
    lemma_trace_cons(m, Event::Sampled(idle_ms), seq![Event::HintSet]);
    lemma_trace_cons(m1, Event::HintSet, Seq::empty());
    assert(seq![Event::Sampled(idle_ms), Event::HintSet] == seq![Event::Sampled(idle_ms)] + seq![
        Event::HintSet,
    ]);
    assert(seq![Event::HintSet] == seq![Event::HintSet] + Seq::<Event>::empty());
    assert(trace(m2, Seq::<Event>::empty()) == Seq::<(Option<Notice>, Action)>::empty());
}

/// A failed sample ends the run with the query failure, before any idle hint
/// of that tick and with no final reset; a failed idle hint in a tick ends it
/// with the remote-call failure.
pub proof fn failures_end_the_run(m: Monitor, events: Seq<Event>)
    ensures
        m.phase == Phase::Sampling ==> trace(m, seq![Event::SampleFailed] + events) == seq![
            (None::<Notice>, Action::Exit(Outcome::Failure(MonitorError::Query))),
        ] + Seq::new(
            events.len(),
            |i: int| (None::<Notice>, Action::Exit(Outcome::Failure(MonitorError::Query))),
        ),
        m.phase is Setting ==> trace(m, seq![Event::HintFailed] + events) == seq![
            (None::<Notice>, Action::Exit(Outcome::Failure(MonitorError::RemoteCall))),
        ] + Seq::new(
            events.len(),
            |i: int| (None::<Notice>, Action::Exit(Outcome::Failure(MonitorError::RemoteCall))),
        ),
{
    if m.phase == Phase::Sampling {
        lemma_trace_cons(m, Event::SampleFailed, events);
        finished_run_is_final(m.spec_next(Event::SampleFailed).0, events);
    }
    if m.phase is Setting {
        lemma_trace_cons(m, Event::HintFailed, events);
        finished_run_is_final(m.spec_next(Event::HintFailed).0, events);
    }
}

} // verus!
