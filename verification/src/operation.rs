//! The state machine shared by the single-shot operations.
//!
//! An operation never touches the socket or the poller. It is told what
//! happened outside (an [`Event`]) and answers with what has to happen next (a
//! [`Demand`]). Whoever drives it asks the poller, makes the non-blocking call
//! and hands control back to the executor.

use vstd::prelude::*;
use crate::outcome::Attempt;
use crate::readiness::Readiness;

verus! {

/// Where a single-shot operation stands.
#[derive(Clone, Copy, PartialEq, Eq, Debug, Structural)]
pub enum Phase {
    /// No guard is held; the next thing to learn is the poller's answer.
    Waiting,
    /// A guard is held; the next thing to learn is how the call went.
    Attempting,
    /// The operation has delivered its result.
    Done,
}

/// Something that happened outside the operation.
#[derive(Debug)]
pub enum Event<T> {
    /// The poller answered a wait for readiness.
    Readiness(Readiness),
    /// The non-blocking call returned.
    Outcome(Attempt<T>),
}

/// What the driver of an operation has to do next.
#[derive(Debug)]
pub enum Demand<T> {
    /// Ask the poller for readiness. With `clear` set, first tell the poller
    /// that the readiness seen last is used up, so that only a fresh
    /// notification counts.
    Await { clear: bool },
    /// Hand control back to the executor until the poller wakes the task.
    Suspend,
    /// Make the non-blocking call under the guard that is held.
    Attempt,
    /// The operation ends here with this result.
    Finish(Result<T, std::io::Error>),
    /// The operation ended earlier; nothing is left to do.
    Over,
}

/// What a phase asks of the driver before any further event.
pub open spec fn pending_demand<T>(phase: Phase) -> Demand<T> {
    match phase {
        Phase::Waiting => Demand::Await { clear: false },
        Phase::Attempting => Demand::Attempt,
        Phase::Done => Demand::Over,
    }
}

/// Whether an event is the answer that a phase waits for.
pub open spec fn answers<T>(phase: Phase, event: Event<T>) -> bool {
    match phase {
        Phase::Waiting => event is Readiness,
        Phase::Attempting => event is Outcome,
        Phase::Done => false,
    }
}

/// The phase after an event.
///
/// A would-block outcome never ends the operation: it goes back to waiting.
/// An event that does not answer the phase is dropped.
pub open spec fn next_phase<T>(phase: Phase, event: Event<T>) -> Phase {
    match (phase, event) {
        (Phase::Waiting, Event::Readiness(Readiness::Pending)) => Phase::Waiting,
        (Phase::Waiting, Event::Readiness(Readiness::Ready)) => Phase::Attempting,
        (Phase::Waiting, Event::Readiness(Readiness::Failed(_))) => Phase::Done,
        (Phase::Attempting, Event::Outcome(Attempt::WouldBlock)) => Phase::Waiting,
        (Phase::Attempting, Event::Outcome(_)) => Phase::Done,
        _ => phase,
    }
}

/// What the driver is asked to do after an event.
///
/// After a would-block outcome `clear_on_block` decides whether the poller is
/// told to forget the readiness that proved false. An event that does not
/// answer the phase gets the phase's own demand again.
pub open spec fn next_demand<T>(phase: Phase, clear_on_block: bool, event: Event<T>) -> Demand<T> {
    match (phase, event) {
        (Phase::Waiting, Event::Readiness(Readiness::Pending)) => Demand::Suspend,
        (Phase::Waiting, Event::Readiness(Readiness::Ready)) => Demand::Attempt,
        (Phase::Waiting, Event::Readiness(Readiness::Failed(err))) => Demand::Finish(Err(err)),
        (Phase::Attempting, Event::Outcome(Attempt::Completed(value))) => Demand::Finish(
            Ok(value),
        ),
        (Phase::Attempting, Event::Outcome(Attempt::WouldBlock)) => Demand::Await {
            clear: clear_on_block,
        },
        (Phase::Attempting, Event::Outcome(Attempt::Failed(err))) => Demand::Finish(Err(err)),
        _ => pending_demand(phase),
    }
}

/// What the driver has to do for an operation that stands in `phase`.
pub fn demand_in<T>(phase: Phase) -> (demand: Demand<T>)
    ensures
        demand == pending_demand::<T>(phase),
{
    match phase {
        Phase::Waiting => Demand::Await { clear: false },
        Phase::Attempting => Demand::Attempt,
        Phase::Done => Demand::Over,
    }
}

/// Takes one event and moves `phase` on.
pub fn advance<T>(phase: &mut Phase, clear_on_block: bool, event: Event<T>) -> (demand: Demand<T>)
    ensures
        *final(phase) == next_phase(*old(phase), event),
        demand == next_demand(*old(phase), clear_on_block, event),
{
    match (*phase, event) {
        (Phase::Waiting, Event::Readiness(Readiness::Pending)) => Demand::Suspend,
        (Phase::Waiting, Event::Readiness(Readiness::Ready)) => {
            *phase = Phase::Attempting;
            Demand::Attempt
        },
        (Phase::Waiting, Event::Readiness(Readiness::Failed(err))) => {
            *phase = Phase::Done;
            Demand::Finish(Err(err))
        },
        (Phase::Attempting, Event::Outcome(Attempt::Completed(value))) => {
            *phase = Phase::Done;
            Demand::Finish(Ok(value))
        },
        (Phase::Attempting, Event::Outcome(Attempt::WouldBlock)) => {
            *phase = Phase::Waiting;
            Demand::Await { clear: clear_on_block }
        },
        (Phase::Attempting, Event::Outcome(Attempt::Failed(err))) => {
            *phase = Phase::Done;
            Demand::Finish(Err(err))
        },
        (current, _) => demand_in(current),
    }
}

} // verus!
