//! Tests of the poll loop's state machine.

use domain_watcher::lookup::{LookupError, LookupResult};
use domain_watcher::watch::{exit_status, run_events, step, Action, Event, LoopState};

fn taken() -> Event {
    Event::LookupDone(LookupResult::Taken)
}

fn available() -> Event {
    Event::LookupDone(LookupResult::Available)
}

fn failed() -> Event {
    Event::LookupDone(LookupResult::QueryFailed(LookupError::Transport {
        message: "connection refused".to_string(),
    }))
}

#[test]
fn step_polling_available_notifies() {
    let r = step(60, LoopState::Polling, &available());
    assert_eq!(r, Some((LoopState::Notifying, Action::Notify)));
}

#[test]
fn step_polling_taken_waits_full_interval() {
    let r = step(60, LoopState::Polling, &taken());
    assert_eq!(r, Some((LoopState::Waiting, Action::Wait(60))));
}

#[test]
fn step_polling_failure_exits() {
    let r = step(60, LoopState::Polling, &failed());
    assert_eq!(r, Some((LoopState::TerminatedFailure, Action::ExitFailure)));
}

#[test]
fn step_notifying_ends_in_success_whatever_the_outcome() {
    let ok = step(60, LoopState::Notifying, &Event::NotifyDone(true));
    let err = step(60, LoopState::Notifying, &Event::NotifyDone(false));
    assert_eq!(ok, Some((LoopState::TerminatedSuccess, Action::ExitSuccess)));
    assert_eq!(err, Some((LoopState::TerminatedSuccess, Action::ExitSuccess)));
}

#[test]
fn step_waiting_elapsed_polls_again() {
    let r = step(60, LoopState::Waiting, &Event::IntervalElapsed);
    assert_eq!(r, Some((LoopState::Polling, Action::IssueLookup)));
}

#[test]
fn step_waiting_shutdown_stops_gracefully() {
    let r = step(60, LoopState::Waiting, &Event::ShutdownSignal);
    assert_eq!(r, Some((LoopState::TerminatedShutdown, Action::StopGraceful)));
}

#[test]
fn step_terminal_states_accept_nothing() {
    for s in [
        LoopState::TerminatedSuccess,
        LoopState::TerminatedFailure,
        LoopState::TerminatedShutdown,
    ] {
        assert_eq!(step(60, s, &taken()), None);
        assert_eq!(step(60, s, &Event::IntervalElapsed), None);
        assert_eq!(step(60, s, &Event::ShutdownSignal), None);
        assert_eq!(step(60, s, &Event::NotifyDone(true)), None);
    }
}

#[test]
fn run_always_taken_never_exits() {
    // The provider keeps answering `registered: true`: the loop waits the
    // interval and polls again, never notifying and never terminating.
    let events = vec![
        taken(),
        Event::IntervalElapsed,
        taken(),
        Event::IntervalElapsed,
        taken(),
    ];
    let tr = run_events(1, &events);
    assert_eq!(
        tr,
        vec![
            (LoopState::Waiting, Action::Wait(1)),
            (LoopState::Polling, Action::IssueLookup),
            (LoopState::Waiting, Action::Wait(1)),
            (LoopState::Polling, Action::IssueLookup),
            (LoopState::Waiting, Action::Wait(1)),
        ]
    );
    let last = tr.last().unwrap().0;
    assert_eq!(exit_status(last), None);
}

#[test]
fn run_available_on_second_call_notifies_once_and_exits_zero() {
    let events = vec![
        taken(),
        Event::IntervalElapsed,
        available(),
        Event::NotifyDone(true),
    ];
    let tr = run_events(1, &events);
    assert_eq!(
        tr,
        vec![
            (LoopState::Waiting, Action::Wait(1)),
            (LoopState::Polling, Action::IssueLookup),
            (LoopState::Notifying, Action::Notify),
            (LoopState::TerminatedSuccess, Action::ExitSuccess),
        ]
    );
    let notifies = tr.iter().filter(|e| e.1 == Action::Notify).count();
    assert_eq!(notifies, 1);
    assert_eq!(exit_status(tr.last().unwrap().0), Some(0));
}

#[test]
fn run_query_failure_exits_one_without_notifying() {
    let events = vec![taken(), Event::IntervalElapsed, failed(), taken()];
    let tr = run_events(1, &events);
    // The run ends at the failure; the trailing event is never consumed.
    assert_eq!(tr.len(), 3);
    assert_eq!(tr[2], (LoopState::TerminatedFailure, Action::ExitFailure));
    assert!(tr.iter().all(|e| e.1 != Action::Notify));
    assert_eq!(exit_status(tr.last().unwrap().0), Some(1));
}

#[test]
fn run_shutdown_during_wait_stops_without_new_lookup() {
    let events = vec![taken(), Event::ShutdownSignal, Event::IntervalElapsed];
    let tr = run_events(1, &events);
    assert_eq!(
        tr,
        vec![
            (LoopState::Waiting, Action::Wait(1)),
            (LoopState::TerminatedShutdown, Action::StopGraceful),
        ]
    );
    assert!(tr.iter().all(|e| e.1 != Action::IssueLookup));
    assert_eq!(exit_status(LoopState::TerminatedShutdown), Some(0));
}

#[test]
fn run_ignores_notifier_failure() {
    let events = vec![available(), Event::NotifyDone(false)];
    let tr = run_events(1, &events);
    assert_eq!(
        tr,
        vec![
            (LoopState::Notifying, Action::Notify),
            (LoopState::TerminatedSuccess, Action::ExitSuccess),
        ]
    );
    assert_eq!(exit_status(tr.last().unwrap().0), Some(0));
}
