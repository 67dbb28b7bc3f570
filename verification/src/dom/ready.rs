//! The one-shot wait for the document to become ready.
//!
//! The wait reads the document's ready state once; when the document is
//! already loaded it resolves on the spot, otherwise it subscribes once to
//! the load event and resolves when that event fires. The host layer runs
//! the wait by feeding events to `ready_step`; the contracts and lemmas
//! here pin down that a wait resolves exactly once.

use vstd::prelude::*;

verus! {

/// Where a ready wait stands.
#[derive(Clone, Copy, Debug, PartialEq, Eq, Structural)]
pub enum ReadyPhase {
    /// The wait has not yet read the document's ready state.
    Start,
    /// The wait subscribed to the one-shot load event and is suspended.
    Waiting,
    /// The wait has resolved.
    Resolved,
}

/// What the host hands a ready wait.
#[derive(Debug, PartialEq, Eq)]
pub enum ReadyEvent {
    /// The wait was started and read this ready state from the document.
    Polled(String),
    /// The one-shot load event fired.
    ContentLoaded,
}

/// What a ready wait asks the host layer to do next.
#[derive(Clone, Copy, Debug, PartialEq, Eq, Structural)]
pub enum ReadyAction {
    /// Resume the caller: the wait is over.
    Resolve,
    /// Subscribe once to the load event and suspend.
    Subscribe,
}

/// Whether a ready-state string reports a document that is already loaded
/// far enough for the wait to resolve on the spot.
pub open spec fn loaded_state(s: Seq<char>) -> bool {
    s == "complete"@ || s == "interactive"@
}

/// The wait's transition function: the next phase and action for an event,
/// or nothing where the host cannot hand the wait that event (the wait
/// polls only at the start, and the one-shot load event fires only while
/// a subscription from this wait is live).
pub open spec fn spec_step(p: ReadyPhase, e: ReadyEvent) -> Option<(ReadyPhase, ReadyAction)> {
    match (p, e) {
        (ReadyPhase::Start, ReadyEvent::Polled(s)) => if loaded_state(s@) {
            Some((ReadyPhase::Resolved, ReadyAction::Resolve))
        } else {
            Some((ReadyPhase::Waiting, ReadyAction::Subscribe))
        },
        (ReadyPhase::Waiting, ReadyEvent::ContentLoaded) => Some(
            (ReadyPhase::Resolved, ReadyAction::Resolve),
        ),
        _ => None,
    }
}

/// Whether a ready-state string reports a loaded document.
pub fn is_loaded_state(state: &str) -> (b: bool)
    ensures
        b == loaded_state(state@),
{
    let s: String = state.to_owned();
    s == "complete".to_owned() || s == "interactive".to_owned()
}

/// Whether the host can hand the wait this event in this phase.
pub fn step_allowed(p: &ReadyPhase, e: &ReadyEvent) -> (b: bool)
    ensures
        b == (spec_step(*p, *e) is Some),
{
    match p {
        ReadyPhase::Start => matches!(*e, ReadyEvent::Polled(_)),
        ReadyPhase::Waiting => matches!(*e, ReadyEvent::ContentLoaded),
        ReadyPhase::Resolved => false,
    }
}

/// One step of the wait: from the current phase and the event the host
/// handed it, the next phase and the action to perform.
pub fn ready_step(phase: ReadyPhase, event: ReadyEvent) -> (r: (ReadyPhase, ReadyAction))
    requires
        spec_step(phase, event) is Some,
    ensures
        spec_step(phase, event) == Some(r),
{
    match (phase, event) {
        (ReadyPhase::Start, ReadyEvent::Polled(s)) => {
            if is_loaded_state(s.as_str()) {
                (ReadyPhase::Resolved, ReadyAction::Resolve)
            } else {
                (ReadyPhase::Waiting, ReadyAction::Subscribe)
            }
        },
        (ReadyPhase::Waiting, ReadyEvent::ContentLoaded) => (
            ReadyPhase::Resolved,
            ReadyAction::Resolve,
        ),
        _ => {
            proof {
                assert(false);
            }
            (ReadyPhase::Resolved, ReadyAction::Resolve)
        },
    }
}

/// The phase a sequence of events leads the wait to.
pub open spec fn run_phase(p: ReadyPhase, evs: Seq<ReadyEvent>) -> ReadyPhase
    decreases evs.len(),
{
    if evs.len() == 0 {
        p
    } else {
        match spec_step(p, evs[0]) {
            Some(step) => run_phase(step.0, evs.drop_first()),
            None => p,
        }
    }
}

/// Whether the host can hand the wait this sequence of events: each event
/// is allowed in the phase the ones before it led to.
pub open spec fn run_valid(p: ReadyPhase, evs: Seq<ReadyEvent>) -> bool
    decreases evs.len(),
{
    evs.len() == 0 || (match spec_step(p, evs[0]) {
        Some(step) => run_valid(step.0, evs.drop_first()),
        None => false,
    })
}

/// How many steps of the run resolve the wait.
pub open spec fn resolve_count(p: ReadyPhase, evs: Seq<ReadyEvent>) -> nat
    decreases evs.len(),
{
    if evs.len() == 0 {
        0
    } else {
        match spec_step(p, evs[0]) {
            Some(step) => (if step.1 == ReadyAction::Resolve {
                1nat
            } else {
                0nat
            }) + resolve_count(step.0, evs.drop_first()),
            None => 0,
        }
    }
}

/// How many steps of the run subscribe to the one-shot load event.
pub open spec fn subscribe_count(p: ReadyPhase, evs: Seq<ReadyEvent>) -> nat
    decreases evs.len(),
{
    if evs.len() == 0 {
        0
    } else {
        match spec_step(p, evs[0]) {
            Some(step) => (if step.1 == ReadyAction::Subscribe {
                1nat
            } else {
                0nat
            }) + subscribe_count(step.0, evs.drop_first()),
            None => 0,
        }
    }
}

/// A resolved wait sees no further event: it neither polls again nor holds
/// a live subscription.
pub proof fn lemma_resolved_is_terminal(evs: Seq<ReadyEvent>)
    requires
        run_valid(ReadyPhase::Resolved, evs),
    ensures
        evs.len() == 0,
{
}

/// Over any valid run, the wait resolves exactly when the run ends
/// resolved, and then exactly once.
proof fn lemma_run_resolve_count(p: ReadyPhase, evs: Seq<ReadyEvent>)
    requires
        run_valid(p, evs),
    ensures
        resolve_count(p, evs) == if p != ReadyPhase::Resolved && run_phase(p, evs)
            == ReadyPhase::Resolved {
            1nat
        } else {
            0nat
        },
    decreases evs.len(),
{
    if evs.len() > 0 {
        let rest = evs.drop_first();
        match evs[0] {
            ReadyEvent::Polled(s) => {
                assert(p == ReadyPhase::Start);
                if loaded_state(s@) {
                    assert(run_valid(ReadyPhase::Resolved, rest));
                    lemma_resolved_is_terminal(rest);
                    assert(resolve_count(ReadyPhase::Resolved, rest) == 0);
                    assert(run_phase(ReadyPhase::Resolved, rest) == ReadyPhase::Resolved);
                } else {
                    lemma_run_resolve_count(ReadyPhase::Waiting, rest);
                    assert(resolve_count(p, evs) == resolve_count(ReadyPhase::Waiting, rest));
                    assert(run_phase(p, evs) == run_phase(ReadyPhase::Waiting, rest));
                }
            },
            ReadyEvent::ContentLoaded => {
                assert(p == ReadyPhase::Waiting);
                assert(run_valid(ReadyPhase::Resolved, rest));
                lemma_resolved_is_terminal(rest);
                assert(resolve_count(ReadyPhase::Resolved, rest) == 0);
                assert(run_phase(ReadyPhase::Resolved, rest) == ReadyPhase::Resolved);
            },
        }
    }
}

/// Only the first step of a wait can subscribe, so a run subscribes at
/// most once, and a run that does not begin at the start never does.
proof fn lemma_run_subscribe_count(p: ReadyPhase, evs: Seq<ReadyEvent>)
    requires
        run_valid(p, evs),
    ensures
        subscribe_count(p, evs) <= 1,
        p != ReadyPhase::Start ==> subscribe_count(p, evs) == 0,
    decreases evs.len(),
{
    if evs.len() > 0 {
        let rest = evs.drop_first();
        match evs[0] {
            ReadyEvent::Polled(s) => {
                assert(p == ReadyPhase::Start);
                if loaded_state(s@) {
                    lemma_resolved_is_terminal(rest);
                    assert(subscribe_count(ReadyPhase::Resolved, rest) == 0);
                } else {
                    lemma_run_subscribe_count(ReadyPhase::Waiting, rest);
                }
            },
            ReadyEvent::ContentLoaded => {
                assert(p == ReadyPhase::Waiting);
                lemma_resolved_is_terminal(rest);
                assert(subscribe_count(ReadyPhase::Resolved, rest) == 0);
            },
        }
    }
}

/// A wait keeps at most a single pending subscription: over any run of
/// events the host can produce, it subscribes to the one-shot load event
/// at most once.
pub proof fn lemma_ready_single_waiter(evs: Seq<ReadyEvent>)
    requires
        run_valid(ReadyPhase::Start, evs),
    ensures
        subscribe_count(ReadyPhase::Start, evs) <= 1,
{
    lemma_run_subscribe_count(ReadyPhase::Start, evs);
}

/// A wait resolves at most once, and exactly once just when its run ends
/// resolved: the one-shot event cannot resume the caller a second time.
pub proof fn lemma_ready_resolves_exactly_once(evs: Seq<ReadyEvent>)
    requires
        run_valid(ReadyPhase::Start, evs),
    ensures
        resolve_count(ReadyPhase::Start, evs) <= 1,
        resolve_count(ReadyPhase::Start, evs) == 1 <==> run_phase(ReadyPhase::Start, evs)
            == ReadyPhase::Resolved,
{
    lemma_run_resolve_count(ReadyPhase::Start, evs);
}

/// When the document is already loaded, the first poll alone resolves the
/// wait: it never subscribes or suspends.
pub proof fn lemma_ready_immediate(state: String)
    requires
        loaded_state(state@),
    ensures
        spec_step(ReadyPhase::Start, ReadyEvent::Polled(state)) == Some(
            (ReadyPhase::Resolved, ReadyAction::Resolve),
        ),
        run_phase(ReadyPhase::Start, seq![ReadyEvent::Polled(state)]) == ReadyPhase::Resolved,
        resolve_count(ReadyPhase::Start, seq![ReadyEvent::Polled(state)]) == 1,
{
    let evs = seq![ReadyEvent::Polled(state)];
    assert(evs.drop_first() =~= Seq::<ReadyEvent>::empty());
    assert(run_phase(ReadyPhase::Resolved, evs.drop_first()) == ReadyPhase::Resolved);
    assert(resolve_count(ReadyPhase::Resolved, evs.drop_first()) == 0);
}

} // verus!
