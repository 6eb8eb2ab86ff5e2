//! Sending one payload.

use vstd::prelude::*;
use crate::operation::{
    answers, advance, demand_in, next_demand, next_phase, pending_demand, Demand, Event, Phase,
};
use crate::outcome::{attempt_of, classify};
use crate::trace::{
    attempts, flapping, inconclusive, lemma_first_verdict_ends, retries, run, verdict,
};
use crate::readiness::Interest;
use crate::socket::{IsoTpSocket, SocketModel};

verus! {

/// What a write operation is: the socket it writes to, the payload it sends
/// and where it stands.
pub struct WriteModel {
    pub socket: SocketModel,
    pub packet: Seq<u8>,
    pub phase: Phase,
}

impl WriteModel {
    /// The operation after an event: only its phase moves.
    pub open spec fn after(self, event: Event<()>) -> WriteModel {
        WriteModel { phase: next_phase(self.phase, event), ..self }
    }

    /// What the operation asks of the driver after an event. A send that
    /// would block asks for a new wait, and the socket's policy decides
    /// whether the guard is cleared first.
    pub open spec fn asks(self, event: Event<()>) -> Demand<()> {
        next_demand(self.phase, self.socket.clear_on_spurious_write, event)
    }

    /// The operation after the events of `trace`, in order.
    pub open spec fn through(self, trace: Seq<Event<()>>) -> WriteModel
        decreases trace.len(),
    {
        if trace.len() == 0 {
            self
        } else {
            self.through(trace.drop_last()).after(trace.last())
        }
    }
}

/// The sending of exactly one payload.
///
/// The operation waits for write readiness, then sends the whole payload in
/// one call. A send that would block is never reported: the operation waits
/// again, after clearing the readiness that proved false unless the socket
/// was told otherwise. Every attempt sends the payload the operation was
/// started with.
#[derive(Debug)]
pub struct IsoTpWriteFuture<'a> {
    socket: &'a IsoTpSocket,
    packet: &'a [u8],
    phase: Phase,
}

impl<'a> View for IsoTpWriteFuture<'a> {
    type V = WriteModel;

    closed spec fn view(&self) -> WriteModel {
        WriteModel { socket: self.socket@, packet: self.packet@, phase: self.phase }
    }
}

impl<'a> IsoTpWriteFuture<'a> {
    pub(crate) fn new(socket: &'a IsoTpSocket, packet: &'a [u8]) -> (op: Self)
        ensures
            op@ == (WriteModel { socket: socket@, packet: packet@, phase: Phase::Waiting }),
    {
        IsoTpWriteFuture { socket, packet, phase: Phase::Waiting }
    }

    /// The socket that this operation writes to.
    pub fn socket(&self) -> (socket: &'a IsoTpSocket)
        ensures
            socket@ == self@.socket,
    {
        self.socket
    }

    /// The payload that every attempt sends.
    pub fn packet(&self) -> (packet: &'a [u8])
        ensures
            packet@ == self@.packet,
    {
        self.packet
    }

    /// Where the operation stands.
    pub fn phase(&self) -> (phase: Phase)
        ensures
            phase == self@.phase,
    {
        self.phase
    }

    /// The readiness that this operation waits for.
    pub fn interest(&self) -> (interest: Interest)
        ensures
            interest == Interest::Writable,
    {
        Interest::Writable
    }

    /// What the driver has to do before it can report the next event.
    pub fn demand(&self) -> (demand: Demand<()>)
        ensures
            demand == pending_demand::<()>(self@.phase),
    {
        demand_in(self.phase)
    }

    /// Takes one event and says what has to happen next.
    pub fn step(&mut self, event: Event<()>) -> (demand: Demand<()>)
        ensures
            final(self)@ == old(self)@.after(event),
            demand == old(self)@.asks(event),
    {
        advance(&mut self.phase, self.socket.clear_on_spurious_write(), event)
    }

    /// Takes the result of the non-blocking send as the transport returned
    /// it.
    pub fn sent(&mut self, result: Result<(), std::io::Error>) -> (demand: Demand<()>)
        ensures
            final(self)@ == old(self)@.after(Event::Outcome(attempt_of(result))),
            demand == old(self)@.asks(Event::Outcome(attempt_of(result))),
    {
        self.step(Event::Outcome(classify(result)))
    }
}

/// Whatever a write operation is given, it keeps the payload it was started
/// with and leaves its socket as it was: what is sent is what the caller
/// handed over, and an operation that is dropped half-way has changed
/// nothing that a later operation starts from. Its phase is the one that
/// the shared state machine reaches.
pub proof fn lemma_write_keeps_payload_and_socket(op: WriteModel, trace: Seq<Event<()>>)
    ensures
        op.through(trace).packet == op.packet,
        op.through(trace).socket == op.socket,
        op.through(trace).phase == run(op.phase, trace),
    decreases trace.len(),
{
    if trace.len() > 0 {
        lemma_write_keeps_payload_and_socket(op, trace.drop_last());
    }
}

/// A write that meets readiness which comes and goes, and sends that would
/// block however often, is still under way after all of it. The first answer
/// that is no would-block then ends it, with success if the send went
/// through and with the error if it failed for good. By then it has made at
/// most one attempt more than came back as would-block, each with the
/// payload it was started with.
pub proof fn lemma_write_ends_with_first_verdict(
    op: WriteModel,
    trace: Seq<Event<()>>,
    event: Event<()>,
)
    requires
        op.phase is Waiting,
        flapping(trace),
        answers(op.through(trace).phase, event),
        !inconclusive(event),
    ensures
        !(op.through(trace).phase is Done),
        op.through(trace.push(event)).phase is Done,
        op.through(trace).asks(event) == Demand::Finish(verdict(event)),
        attempts(op.phase, trace.push(event)) <= retries(op.phase, trace) + 1,
        op.through(trace.push(event)).packet == op.packet,
{
    lemma_write_keeps_payload_and_socket(op, trace);
    lemma_write_keeps_payload_and_socket(op, trace.push(event));
    lemma_first_verdict_ends(trace, event, op.socket.clear_on_spurious_write);
    crate::trace::lemma_flapping_never_ends(trace);
}

} // verus!
