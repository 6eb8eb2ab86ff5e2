//! Receiving one payload.

use vstd::prelude::*;
use crate::operation::{
    advance, demand_in, next_demand, next_phase, pending_demand, Demand, Event, Phase,
};
use crate::outcome::{attempt_of, classify, Attempt};
use crate::trace::run;
use crate::readiness::Interest;
use crate::socket::{IsoTpSocket, SocketModel};

verus! {

/// What a read operation is: the socket it reads from and where it stands.
pub struct ReadModel {
    pub socket: SocketModel,
    pub phase: Phase,
}

impl ReadModel {
    /// The operation after an event: only its phase moves.
    pub open spec fn after(self, event: Event<Vec<u8>>) -> ReadModel {
        ReadModel { phase: next_phase(self.phase, event), ..self }
    }

    /// What the operation asks of the driver after an event. A receive that
    /// would block asks for a new wait with the guard cleared.
    pub open spec fn asks(self, event: Event<Vec<u8>>) -> Demand<Vec<u8>> {
        next_demand(self.phase, true, event)
    }

    /// The operation after the events of `trace`, in order.
    pub open spec fn through(self, trace: Seq<Event<Vec<u8>>>) -> ReadModel
        decreases trace.len(),
    {
        if trace.len() == 0 {
            self
        } else {
            self.through(trace.drop_last()).after(trace.last())
        }
    }
}

/// The reception of exactly one payload.
///
/// The operation waits for read readiness, then receives. A receive that
/// would block clears the guard and waits again; anything else ends the
/// operation, with the payload as the transport handed it out or with the
/// error as it came.
#[derive(Debug)]
pub struct IsoTpReadFuture<'a> {
    socket: &'a IsoTpSocket,
    phase: Phase,
}

impl<'a> View for IsoTpReadFuture<'a> {
    type V = ReadModel;

    closed spec fn view(&self) -> ReadModel {
        ReadModel { socket: self.socket@, phase: self.phase }
    }
}

impl<'a> IsoTpReadFuture<'a> {
    pub(crate) fn new(socket: &'a IsoTpSocket) -> (op: Self)
        ensures
            op@ == (ReadModel { socket: socket@, phase: Phase::Waiting }),
    {
        IsoTpReadFuture { socket, phase: Phase::Waiting }
    }

    /// The socket that this operation reads from.
    pub fn socket(&self) -> (socket: &'a IsoTpSocket)
        ensures
            socket@ == self@.socket,
    {
        self.socket
    }

    /// Where the operation stands.
    pub fn phase(&self) -> (phase: Phase)
        ensures
            phase == self@.phase,
    {
        self.phase
    }

    /// The readiness that this operation waits for.
    pub fn interest(&self) -> (interest: Interest)
        ensures
            interest == Interest::Readable,
    {
        Interest::Readable
    }

    /// What the driver has to do before it can report the next event.
    pub fn demand(&self) -> (demand: Demand<Vec<u8>>)
        ensures
            demand == pending_demand::<Vec<u8>>(self@.phase),
    {
        demand_in(self.phase)
    }

    /// Takes one event and says what has to happen next.
    pub fn step(&mut self, event: Event<Vec<u8>>) -> (demand: Demand<Vec<u8>>)
        ensures
            final(self)@ == old(self)@.after(event),
            demand == old(self)@.asks(event),
    {
        advance(&mut self.phase, true, event)
    }

    /// Takes the result of the non-blocking receive as the transport
    /// returned it.
    pub fn received(&mut self, result: Result<Vec<u8>, std::io::Error>) -> (demand: Demand<
        Vec<u8>,
    >)
        ensures
            final(self)@ == old(self)@.after(Event::Outcome(attempt_of(result))),
            demand == old(self)@.asks(Event::Outcome(attempt_of(result))),
    {
        self.step(Event::Outcome(classify(result)))
    }
}

/// A read that is attempting hands out what the transport returned, byte
/// for byte, and is over with it.
pub proof fn lemma_read_hands_out_what_arrived(op: ReadModel, payload: Vec<u8>)
    requires
        op.phase is Attempting,
    ensures
        op.asks(Event::Outcome(Attempt::Completed(payload))) == Demand::Finish(Ok(payload)),
        op.after(Event::Outcome(Attempt::Completed(payload))).phase is Done,
{
}

/// Whatever a read operation is given, it leaves its socket as it was: an
/// operation that is dropped half-way has changed nothing that a later
/// operation starts from. Its phase is the one that the shared state machine
/// reaches.
pub proof fn lemma_read_keeps_socket(op: ReadModel, trace: Seq<Event<Vec<u8>>>)
    ensures
        op.through(trace).socket == op.socket,
        op.through(trace).phase == run(op.phase, trace),
    decreases trace.len(),
{
    if trace.len() > 0 {
        lemma_read_keeps_socket(op, trace.drop_last());
    }
}

} // verus!
