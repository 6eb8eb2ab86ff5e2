//! What holds of every run of a single-shot operation.
//!
//! A run is the sequence of events that an operation is given, from its start
//! in [`Phase::Waiting`]. The statements here hold for reads and writes alike
//! and for either write policy, because the policy changes demands only, never
//! phases.

use vstd::prelude::*;
use crate::operation::{answers, next_demand, next_phase, Demand, Event, Phase};
use crate::outcome::Attempt;
use crate::readiness::Readiness;

verus! {

/// The phase that an operation in `phase` reaches through `trace`.
pub open spec fn run<T>(phase: Phase, trace: Seq<Event<T>>) -> Phase
    decreases trace.len(),
{
    if trace.len() == 0 {
        phase
    } else {
        next_phase(run(phase, trace.drop_last()), trace.last())
    }
}

/// Whether an operation in `phase` starts an attempt on `event`.
pub open spec fn starts_attempt<T>(phase: Phase, event: Event<T>) -> bool {
    phase is Waiting && event matches Event::Readiness(Readiness::Ready)
}

/// Whether an operation in `phase` finds on `event` that its attempt would
/// block.
pub open spec fn blocks<T>(phase: Phase, event: Event<T>) -> bool {
    phase is Attempting && event matches Event::Outcome(Attempt::WouldBlock)
}

/// How many attempts an operation in `phase` starts along `trace`.
pub open spec fn attempts<T>(phase: Phase, trace: Seq<Event<T>>) -> nat
    decreases trace.len(),
{
    if trace.len() == 0 {
        0
    } else {
        let before = trace.drop_last();
        attempts(phase, before) + if starts_attempt(run(phase, before), trace.last()) {
            1nat
        } else {
            0nat
        }
    }
}

/// How many attempts of an operation in `phase` come back as would-block
/// along `trace`.
pub open spec fn retries<T>(phase: Phase, trace: Seq<Event<T>>) -> nat
    decreases trace.len(),
{
    if trace.len() == 0 {
        0
    } else {
        let before = trace.drop_last();
        retries(phase, before) + if blocks(run(phase, before), trace.last()) {
            1nat
        } else {
            0nat
        }
    }
}

/// An event that decides nothing: the poller says pending or ready, or the
/// call would block.
pub open spec fn inconclusive<T>(event: Event<T>) -> bool {
    match event {
        Event::Readiness(Readiness::Pending) => true,
        Event::Readiness(Readiness::Ready) => true,
        Event::Readiness(Readiness::Failed(_)) => false,
        Event::Outcome(Attempt::WouldBlock) => true,
        Event::Outcome(_) => false,
    }
}

/// A run in which readiness comes and goes and no call gets through.
pub open spec fn flapping<T>(trace: Seq<Event<T>>) -> bool {
    forall|i: int| 0 <= i < trace.len() ==> inconclusive(#[trigger] trace[i])
}

/// The result that an event which is not inconclusive carries.
pub open spec fn verdict<T>(event: Event<T>) -> Result<T, std::io::Error>
    recommends
        !inconclusive(event),
{
    match event {
        Event::Readiness(Readiness::Failed(err)) => Err(err),
        Event::Outcome(Attempt::Completed(value)) => Ok(value),
        Event::Outcome(Attempt::Failed(err)) => Err(err),
        _ => arbitrary(),
    }
}

/// An operation starts at most one attempt more than it has seen come back
/// as would-block: it retries only after a would-block, and once for each.
pub proof fn lemma_attempts_follow_retries<T>(trace: Seq<Event<T>>)
    ensures
        attempts(Phase::Waiting, trace) <= retries(Phase::Waiting, trace) + 1,
        run(Phase::Waiting, trace) is Waiting ==> attempts(Phase::Waiting, trace) == retries(
            Phase::Waiting,
            trace,
        ),
        run(Phase::Waiting, trace) is Attempting ==> attempts(Phase::Waiting, trace) == retries(
            Phase::Waiting,
            trace,
        ) + 1,
    decreases trace.len(),
{
    if trace.len() > 0 {
        lemma_attempts_follow_retries(trace.drop_last());
    }
}

/// However long readiness flaps, the operation neither ends nor fails: it
/// is waiting or attempting, and every would-block was answered by a new
/// wait.
pub proof fn lemma_flapping_never_ends<T>(trace: Seq<Event<T>>)
    requires
        flapping(trace),
    ensures
        !(run(Phase::Waiting, trace) is Done),
    decreases trace.len(),
{
    if trace.len() > 0 {
        let before = trace.drop_last();
        assert forall|i: int| 0 <= i < before.len() implies inconclusive(#[trigger] before[i]) by {
            assert(before[i] == trace[i]);
        }
        lemma_flapping_never_ends(before);
        assert(inconclusive(trace[trace.len() - 1]));
    }
}

/// After any flapping, the first answer that is no would-block ends the
/// operation with exactly the result that the answer carries, be it success
/// or a hard error. Up to then the operation has started no more attempts
/// than would-blocks came back plus one.
pub proof fn lemma_first_verdict_ends<T>(
    trace: Seq<Event<T>>,
    event: Event<T>,
    clear_on_block: bool,
)
    requires
        flapping(trace),
        answers(run(Phase::Waiting, trace), event),
        !inconclusive(event),
    ensures
        run(Phase::Waiting, trace.push(event)) is Done,
        next_demand(run(Phase::Waiting, trace), clear_on_block, event) == Demand::Finish(
            verdict(event),
        ),
        attempts(Phase::Waiting, trace.push(event)) <= retries(Phase::Waiting, trace) + 1,
{
    lemma_flapping_never_ends(trace);
    lemma_attempts_follow_retries(trace);
    assert(trace.push(event).drop_last() == trace);
    assert(trace.push(event).last() == event);
}

/// An operation that is not over never asks for nothing, and it hands
/// control back to the executor only when the poller said pending.
pub proof fn lemma_never_idle<T>(phase: Phase, clear_on_block: bool, event: Event<T>)
    ensures
        next_demand(phase, clear_on_block, event) is Over <==> phase is Done,
        next_demand(phase, clear_on_block, event) is Suspend <==> phase is Waiting && event
            == Event::<T>::Readiness(Readiness::Pending),
{
}

/// An operation that is over stays over: whatever is reported to it, it
/// starts no attempt and asks for nothing.
pub proof fn lemma_done_is_final<T>(trace: Seq<Event<T>>)
    ensures
        run(Phase::Done, trace) is Done,
        attempts(Phase::Done, trace) == 0,
        retries(Phase::Done, trace) == 0,
    decreases trace.len(),
{
    if trace.len() > 0 {
        lemma_done_is_final(trace.drop_last());
    }
}

} // verus!
