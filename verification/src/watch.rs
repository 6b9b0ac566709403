//! The poll loop's state machine.
//!
//! The machine is pure: it maps the current control state and one incoming
//! event to the next state and the next action.  The surrounding process
//! performs each action (issue a lookup, send the notification, wait on the
//! race between the interval timer and the shutdown signal, exit) and feeds
//! the resulting event back in.  One run of the watch is the trace of this
//! machine from the `Polling` state over the sequence of events the
//! environment produced.

use vstd::prelude::*;

use crate::lookup::LookupResult;

verus! {

/// The control state of one watch run.  `Waiting` is the wait boundary
/// between a `Taken` result and the next lookup: the only point where the
/// shutdown signal is observed.
#[derive(Clone, Copy, Debug, PartialEq, Eq, Structural)]
pub enum LoopState {
    /// A lookup is in flight (or about to be issued).
    Polling,
    /// The first `Available` result was just received; the notifier runs.
    Notifying,
    /// A `Taken` result was received; the interval timer races the
    /// shutdown signal.
    Waiting,
    /// The domain became available and the notification was attempted.
    TerminatedSuccess,
    /// A lookup failed; the watch stopped without retrying.
    TerminatedFailure,
    /// The operator requested shutdown during a wait.
    TerminatedShutdown,
}

/// What the environment must do next, as decided by the machine.
#[derive(Clone, Copy, Debug, PartialEq, Eq, Structural)]
pub enum Action {
    /// Issue one availability lookup and report its result.
    IssueLookup,
    /// Send the one-shot notification and report that it was attempted.
    Notify,
    /// Wait the given number of seconds, racing the shutdown signal.
    Wait(u32),
    /// Terminate the whole process with exit status 0.
    ExitSuccess,
    /// Terminate the whole process with exit status 1.
    ExitFailure,
    /// Return from the loop gracefully, without a process exit.
    StopGraceful,
}

/// An event the environment feeds back into the machine.
#[derive(Debug, PartialEq)]
pub enum Event {
    /// A lookup finished with the given result.
    LookupDone(LookupResult),
    /// The notification was attempted; `true` means the relay accepted it.
    /// The outcome never changes the machine's course.
    NotifyDone(bool),
    /// The interval timer won the race at the wait boundary.
    IntervalElapsed,
    /// The shutdown signal won the race at the wait boundary.
    ShutdownSignal,
}

/// Whether a state is terminal.  Terminal states are never left: the
/// machine accepts no further event in them.
pub open spec fn is_terminal(s: LoopState) -> bool {
    s is TerminatedSuccess || s is TerminatedFailure || s is TerminatedShutdown
}

/// The entry state of every run.
pub open spec fn init_state() -> LoopState {
    LoopState::Polling
}

/// The transition relation of the machine.  `None` means the event does not
/// belong to the state (the environment never produces such an event for
/// it); a terminal state accepts no event at all.
pub open spec fn spec_step(interval: u32, s: LoopState, e: Event) -> Option<(LoopState, Action)> {
    match (s, e) {
        (LoopState::Polling, Event::LookupDone(r)) => match r {
            LookupResult::Available => Some((LoopState::Notifying, Action::Notify)),
            LookupResult::Taken => Some((LoopState::Waiting, Action::Wait(interval))),
            LookupResult::QueryFailed(_) => Some(
                (LoopState::TerminatedFailure, Action::ExitFailure),
            ),
        },
        (LoopState::Notifying, Event::NotifyDone(_)) => Some(
            (LoopState::TerminatedSuccess, Action::ExitSuccess),
        ),
        (LoopState::Waiting, Event::IntervalElapsed) => Some(
            (LoopState::Polling, Action::IssueLookup),
        ),
        (LoopState::Waiting, Event::ShutdownSignal) => Some(
            (LoopState::TerminatedShutdown, Action::StopGraceful),
        ),
        _ => None,
    }
}

/// One step of the machine.  `interval` is the configured poll interval in
/// seconds; it is carried into the `Wait` action so that the environment
/// waits the full interval between two lookups.
pub fn step(interval: u32, s: LoopState, e: &Event) -> (r: Option<(LoopState, Action)>)
    ensures
        r == spec_step(interval, s, *e),
{
    match s {
        LoopState::Polling => match e {
            Event::LookupDone(res) => match res {
                LookupResult::Available => Some((LoopState::Notifying, Action::Notify)),
                LookupResult::Taken => Some((LoopState::Waiting, Action::Wait(interval))),
                LookupResult::QueryFailed(_) => Some(
                    (LoopState::TerminatedFailure, Action::ExitFailure),
                ),
            },
            _ => None,
        },
        LoopState::Notifying => match e {
            Event::NotifyDone(_) => Some((LoopState::TerminatedSuccess, Action::ExitSuccess)),
            _ => None,
        },
        LoopState::Waiting => match e {
            Event::IntervalElapsed => Some((LoopState::Polling, Action::IssueLookup)),
            Event::ShutdownSignal => Some((LoopState::TerminatedShutdown, Action::StopGraceful)),
            _ => None,
        },
        _ => None,
    }
}

/// The trace of one run: the machine is started in state `s` and fed the
/// events in order; each accepted event contributes the state entered and
/// the action decided.  The trace stops at the first event the state does
/// not accept; in particular it stops as soon as a terminal state is
/// reached.
pub open spec fn trace(interval: u32, s: LoopState, events: Seq<Event>) -> Seq<(LoopState, Action)>
    decreases events.len(),
{
    if events.len() == 0 {
        Seq::empty()
    } else {
        match spec_step(interval, s, events.first()) {
            Option::Some(p) => seq![p] + trace(interval, p.0, events.drop_first()),
            Option::None => Seq::empty(),
        }
    }
}

/// The trace of a whole run, from the entry state.
pub open spec fn run_trace(interval: u32, events: Seq<Event>) -> Seq<(LoopState, Action)> {
    trace(interval, init_state(), events)
}

/// The state the machine is in just before it consumes `events[i]`.
pub open spec fn pre_state(interval: u32, s: LoopState, events: Seq<Event>, i: int) -> LoopState {
    if i == 0 {
        s
    } else {
        trace(interval, s, events)[i - 1].0
    }
}

/// A terminal state accepts no event: its trace is empty.
pub proof fn lemma_trace_terminal(interval: u32, s: LoopState, events: Seq<Event>)
    requires
        is_terminal(s),
    ensures
        trace(interval, s, events) == Seq::<(LoopState, Action)>::empty(),
{
    if events.len() != 0 {
        assert(spec_step(interval, s, events.first()) is None);
    }
}

/// A trace consumes at most one event per entry.
pub proof fn lemma_trace_len(interval: u32, s: LoopState, events: Seq<Event>)
    ensures
        trace(interval, s, events).len() <= events.len(),
    decreases events.len(),
{
    if events.len() != 0 {
        if spec_step(interval, s, events.first()) is Some {
            let p = spec_step(interval, s, events.first())->Some_0;
            lemma_trace_len(interval, p.0, events.drop_first());
        }
    }
}

/// Each entry of a trace is the step the machine took from the state it
/// was in, and the rest of the trace is the trace of the machine from the
/// state that step entered.
pub proof fn lemma_trace_index(interval: u32, s: LoopState, events: Seq<Event>, i: int)
    requires
        0 <= i < trace(interval, s, events).len(),
    ensures
        spec_step(interval, pre_state(interval, s, events, i), events[i])
            == Some(trace(interval, s, events)[i]),
        trace(interval, s, events).skip(i + 1)
            == trace(interval, trace(interval, s, events)[i].0, events.skip(i + 1)),
    decreases i,
{
    let tr = trace(interval, s, events);
    lemma_trace_len(interval, s, events);
    assert(events.len() != 0);
    let p = spec_step(interval, s, events.first())->Some_0;
    let tail = trace(interval, p.0, events.drop_first());
    assert(tr == seq![p] + tail);
    if i == 0 {
        assert(events.first() == events[0]);
        assert(tr[0] == p);
        assert(tr.skip(1) =~= tail);
        assert(events.drop_first() =~= events.skip(1));
    } else {
        lemma_trace_index(interval, p.0, events.drop_first(), i - 1);
        assert(tr[i] == tail[i - 1]);
        assert(events.drop_first()[i - 1] == events[i]);
        assert(pre_state(interval, p.0, events.drop_first(), i - 1)
            == pre_state(interval, s, events, i));
        assert(tr.skip(i + 1) =~= tail.skip(i));
        assert(events.drop_first().skip(i) =~= events.skip(i + 1));
    }
}

/// From `Notifying` the run ends at once: whatever the notifier's outcome,
/// at most one further step is taken, and it enters `TerminatedSuccess`
/// with a successful exit.
pub proof fn lemma_from_notifying(interval: u32, events: Seq<Event>)
    ensures
        trace(interval, LoopState::Notifying, events).len() <= 1,
        forall|j: int|
            0 <= j < trace(interval, LoopState::Notifying, events).len()
                ==> trace(interval, LoopState::Notifying, events)[j]
                == (LoopState::TerminatedSuccess, Action::ExitSuccess),
{
    if events.len() != 0 {
        let e = events.first();
        match e {
            Event::NotifyDone(_) => {
                lemma_trace_terminal(interval, LoopState::TerminatedSuccess, events.drop_first());
            },
            _ => {
                assert(spec_step(interval, LoopState::Notifying, e) is None);
            },
        }
    }
}

/// The notifier is invoked at most once per run, and only immediately
/// after an `Available` lookup result.
pub proof fn lemma_notify_at_most_once(interval: u32, events: Seq<Event>)
    ensures
        forall|i: int, j: int|
            0 <= i < j < run_trace(interval, events).len() ==> !(#[trigger] run_trace(
                interval,
                events,
            )[i].1 is Notify && #[trigger] run_trace(interval, events)[j].1 is Notify),
        forall|i: int|
            0 <= i < run_trace(interval, events).len() && #[trigger] run_trace(
                interval,
                events,
            )[i].1 is Notify ==> events[i] == Event::LookupDone(LookupResult::Available),
{
    let tr = run_trace(interval, events);
    assert forall|i: int|
        0 <= i < tr.len() && #[trigger] tr[i].1 is Notify implies events[i] == Event::LookupDone(
        LookupResult::Available,
    ) && tr[i].0 is Notifying by {
        lemma_trace_index(interval, init_state(), events, i);
    }
    assert forall|i: int, j: int| 0 <= i < j < tr.len() implies !(#[trigger] tr[i].1 is Notify
        && #[trigger] tr[j].1 is Notify) by {
        if tr[i].1 is Notify && tr[j].1 is Notify {
            lemma_trace_index(interval, init_state(), events, i);
            lemma_from_notifying(interval, events.skip(i + 1));
            assert(tr[j] == tr.skip(i + 1)[j - i - 1]);
        }
    }
}

/// After an `Available` result the machine notifies and then terminates:
/// whatever the notifier's outcome, the only possible further step is the
/// successful exit, and no further lookup is ever issued.
pub proof fn lemma_available_terminates(interval: u32, events: Seq<Event>, i: int)
    requires
        0 <= i < run_trace(interval, events).len(),
        events[i] == Event::LookupDone(LookupResult::Available),
    ensures
        run_trace(interval, events)[i] == (LoopState::Notifying, Action::Notify),
        run_trace(interval, events).len() <= i + 2,
        forall|j: int|
            i < j < run_trace(interval, events).len() ==> #[trigger] run_trace(interval, events)[j]
                == (LoopState::TerminatedSuccess, Action::ExitSuccess),
{
    let tr = run_trace(interval, events);
    lemma_trace_index(interval, init_state(), events, i);
    lemma_from_notifying(interval, events.skip(i + 1));
    assert forall|j: int| i < j < tr.len() implies #[trigger] tr[j] == (
        LoopState::TerminatedSuccess,
        Action::ExitSuccess,
    ) by {
        assert(tr[j] == tr.skip(i + 1)[j - i - 1]);
    }
}

/// After a `QueryFailed` result the run ends immediately with the failure
/// exit, and the notifier is never invoked in that run.
pub proof fn lemma_query_failed_terminates(interval: u32, events: Seq<Event>, i: int)
    requires
        0 <= i < run_trace(interval, events).len(),
        events[i] matches Event::LookupDone(LookupResult::QueryFailed(_)),
    ensures
        run_trace(interval, events)[i] == (LoopState::TerminatedFailure, Action::ExitFailure),
        run_trace(interval, events).len() == i + 1,
        forall|j: int|
            0 <= j < run_trace(interval, events).len() ==> !(#[trigger] run_trace(
                interval,
                events,
            )[j].1 is Notify),
{
    let tr = run_trace(interval, events);
    lemma_trace_index(interval, init_state(), events, i);
    lemma_trace_terminal(interval, LoopState::TerminatedFailure, events.skip(i + 1));
    assert forall|j: int| 0 <= j < tr.len() implies !(#[trigger] tr[j].1 is Notify) by {
        if tr[j].1 is Notify {
            lemma_trace_index(interval, init_state(), events, j);
            lemma_from_notifying(interval, events.skip(j + 1));
            if j < i {
                assert(tr[i] == tr.skip(j + 1)[i - j - 1]);
            }
        }
    }
}

/// Every lookup issued after the first one immediately follows a wait of
/// the full configured interval: consecutive lookups are spaced by at
/// least the interval.
pub proof fn lemma_lookups_spaced(interval: u32, events: Seq<Event>)
    ensures
        forall|j: int|
            0 <= j < run_trace(interval, events).len() && #[trigger] run_trace(
                interval,
                events,
            )[j].1 is IssueLookup ==> 1 <= j && run_trace(interval, events)[j - 1] == (
                LoopState::Waiting,
                Action::Wait(interval),
            ),
{
    let tr = run_trace(interval, events);
    assert forall|j: int| 0 <= j < tr.len() && #[trigger] tr[j].1 is IssueLookup implies 1 <= j
        && tr[j - 1] == (LoopState::Waiting, Action::Wait(interval)) by {
        lemma_trace_index(interval, init_state(), events, j);
        assert(pre_state(interval, init_state(), events, j) is Waiting);
        if j >= 1 {
            lemma_trace_index(interval, init_state(), events, j - 1);
        }
    }
}

/// While every lookup comes back `Taken` and every wait ends with the
/// interval elapsing, the run never notifies and never terminates: the
/// machine only keeps polling and waiting.
pub proof fn lemma_taken_keeps_polling(interval: u32, s: LoopState, events: Seq<Event>)
    requires
        s is Polling || s is Waiting,
        forall|k: int|
            0 <= k < events.len() ==> #[trigger] events[k] == Event::LookupDone(LookupResult::Taken)
                || events[k] == Event::IntervalElapsed,
    ensures
        forall|j: int|
            0 <= j < trace(interval, s, events).len() ==> (#[trigger] trace(
                interval,
                s,
                events,
            )[j].0 is Polling || trace(interval, s, events)[j].0 is Waiting),
        forall|j: int|
            0 <= j < trace(interval, s, events).len() ==> (#[trigger] trace(interval, s, events)[j].1
                == Action::Wait(interval) || trace(interval, s, events)[j].1 is IssueLookup),
    decreases events.len(),
{
    let tr = trace(interval, s, events);
    if events.len() != 0 {
        assert(events[0] == Event::LookupDone(LookupResult::Taken) || events[0]
            == Event::IntervalElapsed);
        if spec_step(interval, s, events.first()) is Some {
            let p = spec_step(interval, s, events.first())->Some_0;
            assert forall|k: int| 0 <= k < events.drop_first().len() implies #[trigger] events.drop_first()[k]
                == Event::LookupDone(LookupResult::Taken) || events.drop_first()[k]
                == Event::IntervalElapsed by {
                assert(events.drop_first()[k] == events[k + 1]);
            }
            lemma_taken_keeps_polling(interval, p.0, events.drop_first());
            let tail = trace(interval, p.0, events.drop_first());
            assert forall|j: int| 0 <= j < tr.len() implies (#[trigger] tr[j].0 is Polling
                || tr[j].0 is Waiting) && (tr[j].1 == Action::Wait(interval)
                || tr[j].1 is IssueLookup) by {
                if j > 0 {
                    assert(tr[j] == tail[j - 1]);
                }
            }
        }
    }
}

/// A shutdown signal received at the wait boundary ends the run
/// gracefully: the machine terminates at once and no lookup is pending or
/// ever started afterwards.
pub proof fn lemma_shutdown_graceful(interval: u32, events: Seq<Event>, i: int)
    requires
        0 <= i < run_trace(interval, events).len(),
        events[i] == Event::ShutdownSignal,
    ensures
        run_trace(interval, events)[i] == (LoopState::TerminatedShutdown, Action::StopGraceful),
        run_trace(interval, events).len() == i + 1,
        forall|j: int|
            i <= j < run_trace(interval, events).len() ==> !(#[trigger] run_trace(
                interval,
                events,
            )[j].1 is IssueLookup),
{
    lemma_trace_index(interval, init_state(), events, i);
    lemma_trace_terminal(interval, LoopState::TerminatedShutdown, events.skip(i + 1));
}

/// Runs the machine from the entry state over a whole sequence of events
/// and returns its trace: each accepted event's entered state and decided
/// action, stopping at the first event the state does not accept.
pub fn run_events(interval: u32, events: &Vec<Event>) -> (r: Vec<(LoopState, Action)>)
    ensures
        r@ == run_trace(interval, events@),
{
    let mut out: Vec<(LoopState, Action)> = Vec::new();
    let mut cur = LoopState::Polling;
    let mut i: usize = 0;
    proof {
        assert(events@.skip(0) =~= events@);
        assert(Seq::<(LoopState, Action)>::empty() + run_trace(interval, events@) =~= run_trace(
            interval,
            events@,
        ));
    }
    while i < events.len()
        invariant
            i <= events@.len(),
            run_trace(interval, events@) == out@ + trace(interval, cur, events@.skip(i as int)),
            out@.len() == i,
        decreases events@.len() - i,
    {
        let stepped = step(interval, cur, &events[i]);
        proof {
            assert(events@.skip(i as int).first() == events@[i as int]);
            assert(events@.skip(i as int).drop_first() =~= events@.skip(i as int + 1));
        }
        match stepped {
            Option::Some(p) => {
                proof {
                    assert(trace(interval, cur, events@.skip(i as int)) == seq![p] + trace(
                        interval,
                        p.0,
                        events@.skip(i as int + 1),
                    ));
                }
                out.push(p);
                cur = p.0;
                i = i + 1;
            },
            Option::None => {
                proof {
                    assert(trace(interval, cur, events@.skip(i as int)) =~= Seq::<
                        (LoopState, Action),
                    >::empty());
                    assert(run_trace(interval, events@) =~= out@);
                }
                return out;
            },
        }
    }
    proof {
        assert(events@.skip(events@.len() as int).len() == 0);
        assert(run_trace(interval, events@) =~= out@);
    }
    out
}

/// The exit status owed for a terminal state: 0 after a successful watch or
/// a graceful shutdown, 1 after a failed lookup, nothing while the run is
/// still in progress.
pub open spec fn spec_exit_status(s: LoopState) -> Option<i32> {
    match s {
        LoopState::TerminatedSuccess => Some(0),
        LoopState::TerminatedFailure => Some(1),
        LoopState::TerminatedShutdown => Some(0),
        _ => None,
    }
}

/// Maps a terminal state to the process exit status.
pub fn exit_status(s: LoopState) -> (r: Option<i32>)
    ensures
        r == spec_exit_status(s),
        r is Some <==> is_terminal(s),
{
    match s {
        LoopState::TerminatedSuccess => Some(0),
        LoopState::TerminatedFailure => Some(1),
        LoopState::TerminatedShutdown => Some(0),
        _ => None,
    }
}

} // verus!
