//! The lifecycle of one countdown engine.
//!
//! A countdown engine waits for its duration on a background unit of its
//! own and resolves to exactly one of two outcomes: it fires its one-shot
//! completion action, or it is cancelled first. The race between expiry
//! and cancellation is decided by a single-slot signal consumed with a
//! bounded wait, so the two outcomes exclude each other by construction.
//! This module states that lifecycle as a step function over plain values
//! and proves that the completion action fires at most once, and never
//! after cancellation.

use vstd::prelude::*;

verus! {

/// State of one countdown engine.
#[derive(Clone, Copy, PartialEq, Eq, Structural, Debug)]
pub enum EngineState {
    /// The background wait is still blocked: neither outcome yet.
    Waiting,
    /// The full duration elapsed with no signal; the completion action ran.
    Fired,
    /// The cancellation signal was consumed before expiry.
    Cancelled,
}

/// What the background wait observes next.
#[derive(Clone, Copy, PartialEq, Eq, Structural, Debug)]
pub enum EngineEvent {
    /// The bounded wait timed out: the full duration elapsed.
    Expire,
    /// The cancellation signal arrived within the wait.
    Signal,
}

/// One step of the engine lifecycle: the next state, and whether this
/// step fires the completion action. Only a waiting engine moves; a
/// fired or cancelled engine ignores every further event.
pub open spec fn spec_engine_step(s: EngineState, e: EngineEvent) -> (EngineState, bool) {
    match (s, e) {
        (EngineState::Waiting, EngineEvent::Expire) => (EngineState::Fired, true),
        (EngineState::Waiting, EngineEvent::Signal) => (EngineState::Cancelled, false),
        _ => (s, false),
    }
}

/// Run the engine from `s` through `events`, front first: the final state
/// and how many times the completion action fired along the way.
pub open spec fn spec_engine_run(s: EngineState, events: Seq<EngineEvent>) -> (EngineState, nat)
    decreases events.len(),
{
    if events.len() == 0 {
        (s, 0)
    } else {
        let step = spec_engine_step(s, events[0]);
        let rest = spec_engine_run(step.0, events.drop_first());
        (rest.0, rest.1 + if step.1 { 1nat } else { 0nat })
    }
}

/// One step of the engine lifecycle, executed.
pub fn engine_step(s: EngineState, e: EngineEvent) -> (r: (EngineState, bool))
    ensures
        r == spec_engine_step(s, e),
{
    match (s, e) {
        (EngineState::Waiting, EngineEvent::Expire) => (EngineState::Fired, true),
        (EngineState::Waiting, EngineEvent::Signal) => (EngineState::Cancelled, false),
        _ => (s, false),
    }
}

/// An engine that has already resolved — fired or cancelled — never fires
/// again, whatever it observes. In particular, once cancellation has won
/// the race, the completion action cannot run afterwards.
pub proof fn lemma_resolved_never_fires(s: EngineState, events: Seq<EngineEvent>)
    requires
        s !is Waiting,
    ensures
        spec_engine_run(s, events) == (s, 0nat),
    decreases events.len(),
{
    if events.len() > 0 {
        lemma_resolved_never_fires(s, events.drop_first());
    }
}

/// Cancelling a countdown guarantees its completion action never fires
/// afterwards: from the cancelled state, no sequence of later events
/// produces a firing.
pub proof fn lemma_cancelled_never_fires(events: Seq<EngineEvent>)
    ensures
        spec_engine_run(EngineState::Cancelled, events).1 == 0,
{
    lemma_resolved_never_fires(EngineState::Cancelled, events);
}

/// The completion action is one-shot: over any run from any state, it
/// fires at most once — and never from an already resolved engine.
pub proof fn lemma_fires_at_most_once(s: EngineState, events: Seq<EngineEvent>)
    ensures
        spec_engine_run(s, events).1 <= 1,
        s !is Waiting ==> spec_engine_run(s, events).1 == 0,
    decreases events.len(),
{
    if s !is Waiting {
        lemma_resolved_never_fires(s, events);
    } else if events.len() > 0 {
        let step = spec_engine_step(s, events[0]);
        lemma_fires_at_most_once(step.0, events.drop_first());
    }
}

} // verus!
