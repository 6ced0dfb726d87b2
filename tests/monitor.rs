use x11_idle_sync::activity::{classify, ActivityState};
use x11_idle_sync::monitor::{Action, Event, Monitor, MonitorError, Notice, Outcome, Phase};
use x11_idle_sync::settings::{poll_interval_ms, threshold_ms_from_secs, Settings};

fn continuous(threshold_ms: u64, reset_on_exit: bool) -> Monitor {
    Monitor::new(Settings::new(threshold_ms, reset_on_exit, false))
}

fn hint_calls(steps: &[(Option<Notice>, Action)]) -> Vec<bool> {
    steps
        .iter()
        .filter_map(|(_, a)| match a {
            Action::SetIdleHint(b) => Some(*b),
            _ => None,
        })
        .collect()
}

#[test]
fn idle_at_exact_threshold() {
    assert_eq!(classify(300_000, 300_000), ActivityState::Idle);
    assert_eq!(classify(299_999, 300_000), ActivityState::Active);
    assert_eq!(classify(300_001, 300_000), ActivityState::Idle);
    assert_eq!(classify(0, 1), ActivityState::Active);
    assert_eq!(classify(u64::MAX, u64::MAX), ActivityState::Idle);
}

#[test]
fn hint_value_of_state() {
    assert!(ActivityState::Idle.hint());
    assert!(!ActivityState::Active.hint());
}

#[test]
fn poll_interval_for_fifty_seconds() {
    assert_eq!(poll_interval_ms(50_000), 5_000);
}

#[test]
fn poll_interval_for_three_hundred_seconds() {
    assert_eq!(poll_interval_ms(300_000), 30_000);
}

#[test]
fn poll_interval_floor_applies() {
    assert_eq!(poll_interval_ms(3_000), 5_000);
    assert_eq!(poll_interval_ms(49_999), 5_000);
    assert_eq!(poll_interval_ms(60_000), 6_000);
}

#[test]
fn threshold_conversion() {
    assert_eq!(threshold_ms_from_secs(300), Some(300_000));
    assert_eq!(threshold_ms_from_secs(0), Some(0));
    assert_eq!(threshold_ms_from_secs(u64::MAX / 1000), Some(u64::MAX / 1000 * 1000));
    assert_eq!(threshold_ms_from_secs(u64::MAX / 1000 + 1), None);
}

#[test]
fn settings_derive_interval() {
    let s = Settings::new(300_000, true, false);
    assert_eq!(s.poll_interval_ms, 30_000);
    assert!(s.resets_on_exit());
    assert!(!Settings::new(300_000, true, true).resets_on_exit());
    assert!(!Settings::new(300_000, false, false).resets_on_exit());
}

#[test]
fn new_monitor_waits_first() {
    let m = continuous(50_000, true);
    assert_eq!(m.activity, ActivityState::Active);
    assert_eq!(m.phase, Phase::Waiting);
    assert_eq!(m.action(), Action::Wait(5_000));
    assert!(!m.is_finished());
}

#[test]
fn repeated_classification_sets_hint_each_tick() {
    let mut m = continuous(10_000, true);
    let events = vec![
        Event::TimerElapsed,
        Event::Sampled(12_000),
        Event::HintSet,
        Event::TimerElapsed,
        Event::Sampled(20_000),
        Event::HintSet,
    ];
    let steps = m.replay(&events);
    assert_eq!(hint_calls(&steps), vec![true, true]);
    assert_eq!(steps[2].0, Some(Notice::UserIs(ActivityState::Idle)));
    assert_eq!(steps[5].0, None);
    assert_eq!(steps[5].1, Action::Wait(5_000));
    assert_eq!(m.activity, ActivityState::Idle);
}

#[test]
fn active_ticks_give_no_notice() {
    let mut m = continuous(10_000, true);
    let events = vec![
        Event::TimerElapsed,
        Event::Sampled(1_000),
        Event::HintSet,
        Event::TimerElapsed,
        Event::Sampled(2_000),
        Event::HintSet,
    ];
    let steps = m.replay(&events);
    assert_eq!(hint_calls(&steps), vec![false, false]);
    assert!(steps.iter().all(|(n, _)| n.is_none()));
}

#[test]
fn transition_back_to_active() {
    let mut m = continuous(10_000, true);
    let events = vec![
        Event::TimerElapsed,
        Event::Sampled(10_000),
        Event::HintSet,
        Event::TimerElapsed,
        Event::Sampled(500),
        Event::HintSet,
    ];
    let steps = m.replay(&events);
    assert_eq!(hint_calls(&steps), vec![true, false]);
    assert_eq!(steps[2].0, Some(Notice::UserIs(ActivityState::Idle)));
    assert_eq!(steps[5].0, Some(Notice::UserIs(ActivityState::Active)));
}

#[test]
fn pending_shutdown_resets_once() {
    let mut m = continuous(300_000, true);
    assert_eq!(m.action(), Action::Wait(30_000));
    let steps = m.replay(&vec![Event::ShutdownRequested, Event::HintSet]);
    assert_eq!(
        steps,
        vec![
            (Some(Notice::ShutdownReceived), Action::SetIdleHint(false)),
            (Some(Notice::HintReset), Action::Exit(Outcome::Success)),
        ]
    );
    assert!(m.is_finished());
}

#[test]
fn one_shot_idle_scenario() {
    let mut m = Monitor::new(Settings::new(10_000, true, true));
    assert_eq!(m.action(), Action::Sample);
    let steps = m.replay(&vec![Event::Sampled(15_000), Event::HintSet]);
    assert_eq!(
        steps,
        vec![
            (None, Action::SetIdleHint(true)),
            (Some(Notice::UserIs(ActivityState::Idle)), Action::Exit(Outcome::Success)),
        ]
    );
}

#[test]
fn one_shot_active_gives_no_notice() {
    let mut m = Monitor::new(Settings::new(10_000, true, true));
    let steps = m.replay(&vec![Event::Sampled(3_000), Event::HintSet]);
    assert_eq!(
        steps,
        vec![(None, Action::SetIdleHint(false)), (None, Action::Exit(Outcome::Success))]
    );
}

#[test]
fn sample_failure_on_third_tick() {
    let mut m = continuous(10_000, true);
    let events = vec![
        Event::TimerElapsed,
        Event::Sampled(1_000),
        Event::HintSet,
        Event::TimerElapsed,
        Event::Sampled(11_000),
        Event::HintSet,
        Event::TimerElapsed,
        Event::SampleFailed,
        Event::ShutdownRequested,
        Event::HintSet,
    ];
    let steps = m.replay(&events);
    assert_eq!(hint_calls(&steps), vec![false, true]);
    let fail = Action::Exit(Outcome::Failure(MonitorError::Query));
    assert_eq!(steps[7], (None, fail));
    assert_eq!(steps[8], (None, fail));
    assert_eq!(steps[9], (None, fail));
    assert_eq!(m.phase, Phase::Finished(Outcome::Failure(MonitorError::Query)));
}

#[test]
fn suppressed_reset_scenario() {
    let mut m = continuous(10_000, false);
    let events = vec![
        Event::TimerElapsed,
        Event::Sampled(12_000),
        Event::HintSet,
        Event::ShutdownRequested,
    ];
    let steps = m.replay(&events);
    assert_eq!(hint_calls(&steps), vec![true]);
    assert_eq!(
        steps[3],
        (Some(Notice::ShutdownReceived), Action::Exit(Outcome::Success))
    );
}

#[test]
fn remote_call_failure_in_tick() {
    let mut m = continuous(10_000, true);
    let steps = m.replay(&vec![Event::TimerElapsed, Event::Sampled(1), Event::HintFailed]);
    assert_eq!(
        steps[2],
        (None, Action::Exit(Outcome::Failure(MonitorError::RemoteCall)))
    );
}

#[test]
fn cleanup_failure_after_shutdown() {
    let mut m = continuous(10_000, true);
    let steps = m.replay(&vec![Event::ShutdownRequested, Event::HintFailed]);
    assert_eq!(
        steps[1],
        (None, Action::Exit(Outcome::Failure(MonitorError::Cleanup)))
    );
}

#[test]
fn unexpected_event_changes_nothing() {
    let mut m = continuous(10_000, true);
    let before = m;
    assert_eq!(m.step(Event::HintSet), None);
    assert_eq!(m, before);
    assert_eq!(m.step(Event::Sampled(99_000)), None);
    assert_eq!(m, before);
}

#[test]
fn step_by_step_tick() {
    let mut m = continuous(10_000, true);
    assert_eq!(m.step(Event::TimerElapsed), None);
    assert_eq!(m.action(), Action::Sample);
    assert_eq!(m.step(Event::Sampled(10_000)), None);
    assert_eq!(m.action(), Action::SetIdleHint(true));
    assert_eq!(m.step(Event::HintSet), Some(Notice::UserIs(ActivityState::Idle)));
    assert_eq!(m.action(), Action::Wait(5_000));
}
