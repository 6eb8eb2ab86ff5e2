//! Receiving payloads one after another.

use vstd::prelude::*;
use crate::operation::{advance, next_demand, next_phase, Demand, Event, Phase};
use crate::outcome::{attempt_of, classify};
use crate::readiness::Interest;
use crate::socket::{IsoTpSocket, SocketModel};

verus! {

/// What the driver of a receive sequence has to do next.
#[derive(Debug)]
pub enum SequenceDemand {
    /// Ask the poller for read readiness, after clearing the guard if `clear`
    /// is set.
    Await { clear: bool },
    /// Hand control back to the executor until the poller wakes the task.
    Suspend,
    /// Make the non-blocking receive under the guard that is held.
    Attempt,
    /// Hand this item to the consumer. An error is the last item.
    Yield(Result<Vec<u8>, std::io::Error>),
    /// The sequence has ended; there is no further item.
    End,
}

/// The demand of a sequence that stands for the demand of its current read.
pub open spec fn sequence_demand(demand: Demand<Vec<u8>>) -> SequenceDemand {
    match demand {
        Demand::Await { clear } => SequenceDemand::Await { clear },
        Demand::Suspend => SequenceDemand::Suspend,
        Demand::Attempt => SequenceDemand::Attempt,
        Demand::Finish(item) => SequenceDemand::Yield(item),
        Demand::Over => SequenceDemand::End,
    }
}

/// The phase of a sequence after an event.
///
/// The sequence runs one read at a time. A read that ends with a payload is
/// followed by a fresh one; a read that ends with an error is the last, and
/// the sequence stays in [`Phase::Done`].
pub open spec fn sequence_phase(phase: Phase, event: Event<Vec<u8>>) -> Phase {
    if next_demand(phase, true, event) matches Demand::Finish(Ok(_)) {
        Phase::Waiting
    } else {
        next_phase(phase, event)
    }
}

/// The phase that a sequence in `phase` reaches through `trace`.
pub open spec fn sequence_run(phase: Phase, trace: Seq<Event<Vec<u8>>>) -> Phase
    decreases trace.len(),
{
    if trace.len() == 0 {
        phase
    } else {
        sequence_phase(sequence_run(phase, trace.drop_last()), trace.last())
    }
}

/// What a receive sequence is: the socket it reads from and the phase of its
/// current read, [`Phase::Done`] once it has ended.
pub struct SequenceModel {
    pub socket: SocketModel,
    pub phase: Phase,
}

/// The payloads that arrive on a socket, one at a time and on request.
///
/// Nothing is received ahead: the sequence moves only when it is given an
/// event, and at most one read is under way.
#[derive(Debug)]
pub struct ReceiveSequence<'a> {
    socket: &'a IsoTpSocket,
    phase: Phase,
}

impl<'a> View for ReceiveSequence<'a> {
    type V = SequenceModel;

    closed spec fn view(&self) -> SequenceModel {
        SequenceModel { socket: self.socket@, phase: self.phase }
    }
}

impl<'a> ReceiveSequence<'a> {
    /// The sequence of what `socket` receives from now on.
    pub fn new(socket: &'a IsoTpSocket) -> (sequence: Self)
        ensures
            sequence@ == (SequenceModel { socket: socket@, phase: Phase::Waiting }),
    {
        ReceiveSequence { socket, phase: Phase::Waiting }
    }

    /// The socket that this sequence reads from.
    pub fn socket(&self) -> (socket: &'a IsoTpSocket)
        ensures
            socket@ == self@.socket,
    {
        self.socket
    }

    /// The readiness that this sequence waits for.
    pub fn interest(&self) -> (interest: Interest)
        ensures
            interest == Interest::Readable,
    {
        Interest::Readable
    }

    /// Whether the sequence has yielded its last item.
    pub fn ended(&self) -> (ended: bool)
        ensures
            ended == (self@.phase is Done),
    {
        match self.phase {
            Phase::Done => true,
            _ => false,
        }
    }

    /// What the driver has to do before it can report the next event.
    pub fn demand(&self) -> (demand: SequenceDemand)
        ensures
            demand == sequence_demand(crate::operation::pending_demand(self@.phase)),
    {
        match self.phase {
            Phase::Waiting => SequenceDemand::Await { clear: false },
            Phase::Attempting => SequenceDemand::Attempt,
            Phase::Done => SequenceDemand::End,
        }
    }

    /// Takes one event and says what has to happen next.
    pub fn step(&mut self, event: Event<Vec<u8>>) -> (demand: SequenceDemand)
        ensures
            final(self)@.socket == old(self)@.socket,
            final(self)@.phase == sequence_phase(old(self)@.phase, event),
            demand == sequence_demand(next_demand(old(self)@.phase, true, event)),
    {
        match advance(&mut self.phase, true, event) {
            Demand::Await { clear } => SequenceDemand::Await { clear },
            Demand::Suspend => SequenceDemand::Suspend,
            Demand::Attempt => SequenceDemand::Attempt,
            Demand::Finish(Ok(payload)) => {
                self.phase = Phase::Waiting;
                SequenceDemand::Yield(Ok(payload))
            },
            Demand::Finish(Err(err)) => SequenceDemand::Yield(Err(err)),
            Demand::Over => SequenceDemand::End,
        }
    }

    /// Takes the result of the non-blocking receive as the transport
    /// returned it.
    pub fn received(&mut self, result: Result<Vec<u8>, std::io::Error>) -> (demand: SequenceDemand)
        ensures
            final(self)@.socket == old(self)@.socket,
            final(self)@.phase == sequence_phase(
                old(self)@.phase,
                Event::Outcome(attempt_of(result)),
            ),
            demand == sequence_demand(
                next_demand(old(self)@.phase, true, Event::Outcome(attempt_of(result))),
            ),
    {
        self.step(Event::Outcome(classify(result)))
    }
}

/// A sequence ends with the first error it yields, and only then: after a
/// step it has ended exactly if that step yielded an error or it had ended
/// before.
pub proof fn lemma_error_ends_sequence(phase: Phase, event: Event<Vec<u8>>)
    ensures
        sequence_phase(phase, event) is Done <==> phase is Done || (sequence_demand(
            next_demand(phase, true, event),
        ) matches SequenceDemand::Yield(Err(_))),
{
}

/// A sequence that has ended stays ended: whatever is reported to it, it
/// asks for no wait and no receive, only says that it has ended.
pub proof fn lemma_ended_sequence_is_silent(trace: Seq<Event<Vec<u8>>>, event: Event<Vec<u8>>)
    ensures
        sequence_run(Phase::Done, trace) is Done,
        sequence_demand(next_demand(sequence_run(Phase::Done, trace), true, event))
            == SequenceDemand::End,
    decreases trace.len(),
{
    if trace.len() > 0 {
        lemma_ended_sequence_is_silent(trace.drop_last(), trace.last());
    }
}

} // verus!
