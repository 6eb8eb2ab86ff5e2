//! Sending payloads one after another.

use vstd::prelude::*;
use crate::operation::{next_demand, next_phase, Demand, Event, Phase};
use crate::outcome::{attempt_of, classify, Attempt};
use crate::readiness::{Interest, Readiness};
use crate::socket::{IsoTpSocket, SocketModel};

verus! {

/// Where a send consumer stands.
#[derive(Clone, Copy, PartialEq, Eq, Debug, Structural)]
pub enum SinkState {
    /// Nothing is in flight and no guard is held.
    Idle,
    /// Write readiness was seen; the next payload can be sent at once.
    Ready,
    /// A payload is in flight and waits for write readiness.
    SendWaiting,
    /// A payload is in flight and a send is being attempted.
    SendAttempting,
    /// The consumer waits for write readiness one last time.
    Closing,
    /// The consumer takes no more payloads.
    Closed,
}

/// What the driver of a send consumer has to do next.
#[derive(Debug)]
pub enum SinkDemand {
    /// Ask the poller for write readiness, after clearing the guard if
    /// `clear` is set.
    Await { clear: bool },
    /// Hand control back to the executor until the poller wakes the task.
    Suspend,
    /// Send the payload in flight under the guard that is held.
    Attempt,
    /// The consumer is ready for the next payload.
    Accepting,
    /// The payload in flight was handed to the transport.
    Sent,
    /// There is nothing to flush: the transport takes each payload whole.
    Flushed,
    /// The consumer is closed; the descriptor stays open. With `clear` set
    /// the guard that is held has to be cleared.
    Closed { clear: bool },
    /// The call under way failed; a payload in flight is lost.
    Fail(std::io::Error),
    /// The payload was not taken and comes back: another one is in flight,
    /// or the consumer is closing or closed.
    Refused(Vec<u8>),
}

/// What a send consumer is: the socket it writes to, where it stands, and
/// the payload in flight (empty when there is none).
pub struct SinkModel {
    pub socket: SocketModel,
    pub state: SinkState,
    pub item: Seq<u8>,
}

impl SinkModel {
    /// What the consumer asks of the driver before any further event.
    pub open spec fn pending(self) -> SinkDemand {
        match self.state {
            SinkState::Idle => SinkDemand::Await { clear: false },
            SinkState::Ready => SinkDemand::Accepting,
            SinkState::SendWaiting => SinkDemand::Await { clear: false },
            SinkState::SendAttempting => SinkDemand::Attempt,
            SinkState::Closing => SinkDemand::Await { clear: false },
            SinkState::Closed => SinkDemand::Closed { clear: false },
        }
    }

    /// Whether a payload offered now is taken.
    pub open spec fn takes(self) -> bool {
        self.state is Idle || self.state is Ready
    }

    /// The consumer after a payload was offered.
    ///
    /// After readiness was seen the payload is sent at once; otherwise the
    /// consumer waits for readiness first. Either way the payload goes the
    /// way of a single write, retries included.
    pub open spec fn offered(self, item: Seq<u8>) -> SinkModel {
        match self.state {
            SinkState::Idle => SinkModel { state: SinkState::SendWaiting, item, ..self },
            SinkState::Ready => SinkModel { state: SinkState::SendAttempting, item, ..self },
            _ => self,
        }
    }

    /// The consumer after it was asked to close.
    pub open spec fn closing(self) -> SinkModel {
        if self.takes() {
            SinkModel { state: SinkState::Closing, ..self }
        } else {
            self
        }
    }

    /// The consumer after an event.
    ///
    /// A send that would block keeps the payload in flight and waits again.
    /// A failure ends the call under way and leaves the consumer idle. An
    /// event that does not answer the state is dropped.
    pub open spec fn after(self, event: Event<()>) -> SinkModel {
        match (self.state, event) {
            (SinkState::Idle, Event::Readiness(Readiness::Ready)) => SinkModel {
                state: SinkState::Ready,
                ..self
            },
            (SinkState::SendWaiting, Event::Readiness(Readiness::Ready)) => SinkModel {
                state: SinkState::SendAttempting,
                ..self
            },
            (SinkState::SendWaiting, Event::Readiness(Readiness::Failed(_))) => SinkModel {
                state: SinkState::Idle,
                item: Seq::empty(),
                ..self
            },
            (SinkState::SendAttempting, Event::Outcome(Attempt::WouldBlock)) => SinkModel {
                state: SinkState::SendWaiting,
                ..self
            },
            (SinkState::SendAttempting, Event::Outcome(_)) => SinkModel {
                state: SinkState::Idle,
                item: Seq::empty(),
                ..self
            },
            (SinkState::Closing, Event::Readiness(Readiness::Ready)) => SinkModel {
                state: SinkState::Closed,
                ..self
            },
            (SinkState::Closing, Event::Readiness(Readiness::Failed(_))) => SinkModel {
                state: SinkState::Idle,
                ..self
            },
            _ => self,
        }
    }

    /// What the consumer asks of the driver after an event.
    pub open spec fn asks(self, event: Event<()>) -> SinkDemand {
        match (self.state, event) {
            (SinkState::Idle, Event::Readiness(Readiness::Pending)) => SinkDemand::Suspend,
            (SinkState::Idle, Event::Readiness(Readiness::Ready)) => SinkDemand::Accepting,
            (SinkState::Idle, Event::Readiness(Readiness::Failed(err))) => SinkDemand::Fail(err),
            (SinkState::SendWaiting, Event::Readiness(Readiness::Pending)) => SinkDemand::Suspend,
            (SinkState::SendWaiting, Event::Readiness(Readiness::Ready)) => SinkDemand::Attempt,
            (SinkState::SendWaiting, Event::Readiness(Readiness::Failed(err))) => SinkDemand::Fail(
                err,
            ),
            (SinkState::SendAttempting, Event::Outcome(Attempt::Completed(_))) => SinkDemand::Sent,
            (SinkState::SendAttempting, Event::Outcome(Attempt::WouldBlock)) => SinkDemand::Await {
                clear: self.socket.clear_on_spurious_write,
            },
            (SinkState::SendAttempting, Event::Outcome(Attempt::Failed(err))) => SinkDemand::Fail(
                err,
            ),
            (SinkState::Closing, Event::Readiness(Readiness::Pending)) => SinkDemand::Suspend,
            (SinkState::Closing, Event::Readiness(Readiness::Ready)) => SinkDemand::Closed {
                clear: true,
            },
            (SinkState::Closing, Event::Readiness(Readiness::Failed(err))) => SinkDemand::Fail(err),
            _ => self.pending(),
        }
    }
}

/// The phase of the write that a consumer has in flight; [`Phase::Done`]
/// when it has none.
pub open spec fn flight_phase(state: SinkState) -> Phase {
    match state {
        SinkState::SendWaiting => Phase::Waiting,
        SinkState::SendAttempting => Phase::Attempting,
        _ => Phase::Done,
    }
}

/// A destination for payloads: each is sent whole, one at a time.
///
/// At most one payload is in flight. It is sent as a single write is: a send
/// that would block is repeated after a new wait for readiness, with the
/// socket's write policy.
#[derive(Debug)]
pub struct SendConsumer<'a> {
    socket: &'a IsoTpSocket,
    state: SinkState,
    item: Vec<u8>,
}

impl<'a> View for SendConsumer<'a> {
    type V = SinkModel;

    closed spec fn view(&self) -> SinkModel {
        SinkModel { socket: self.socket@, state: self.state, item: self.item@ }
    }
}

impl<'a> SendConsumer<'a> {
    /// A consumer that sends on `socket`.
    pub fn new(socket: &'a IsoTpSocket) -> (consumer: Self)
        ensures
            consumer@ == (SinkModel {
                socket: socket@,
                state: SinkState::Idle,
                item: Seq::empty(),
            }),
    {
        SendConsumer { socket, state: SinkState::Idle, item: Vec::new() }
    }

    /// The socket that this consumer writes to.
    pub fn socket(&self) -> (socket: &'a IsoTpSocket)
        ensures
            socket@ == self@.socket,
    {
        self.socket
    }

    /// The readiness that this consumer waits for.
    pub fn interest(&self) -> (interest: Interest)
        ensures
            interest == Interest::Writable,
    {
        Interest::Writable
    }

    /// Where the consumer stands.
    pub fn state(&self) -> (state: SinkState)
        ensures
            state == self@.state,
    {
        self.state
    }

    /// The payload in flight; empty when there is none.
    pub fn item(&self) -> (item: &[u8])
        ensures
            item@ == self@.item,
    {
        self.item.as_slice()
    }

    /// What the driver has to do before it can report the next event. This
    /// is also the answer to the question whether a payload can be offered:
    /// [`SinkDemand::Accepting`] says that it can be sent at once.
    pub fn demand(&self) -> (demand: SinkDemand)
        ensures
            demand == self@.pending(),
    {
        match self.state {
            SinkState::Idle => SinkDemand::Await { clear: false },
            SinkState::Ready => SinkDemand::Accepting,
            SinkState::SendWaiting => SinkDemand::Await { clear: false },
            SinkState::SendAttempting => SinkDemand::Attempt,
            SinkState::Closing => SinkDemand::Await { clear: false },
            SinkState::Closed => SinkDemand::Closed { clear: false },
        }
    }

    /// Offers the next payload.
    ///
    /// The payload is taken unless another one is in flight or the consumer
    /// is closing or closed; then it comes back unchanged.
    pub fn start_send(&mut self, item: Vec<u8>) -> (demand: SinkDemand)
        ensures
            final(self)@ == old(self)@.offered(item@),
            old(self)@.takes() ==> demand == final(self)@.pending(),
            !old(self)@.takes() ==> demand == SinkDemand::Refused(item),
    {
        match self.state {
            SinkState::Idle => {
                self.item = item;
                self.state = SinkState::SendWaiting;
                SinkDemand::Await { clear: false }
            },
            SinkState::Ready => {
                self.item = item;
                self.state = SinkState::SendAttempting;
                SinkDemand::Attempt
            },
            _ => SinkDemand::Refused(item),
        }
    }

    /// Flushes the consumer, which holds nothing back: the answer is always
    /// [`SinkDemand::Flushed`], and nothing changes.
    pub fn poll_flush(&self) -> (demand: SinkDemand)
        ensures
            demand == SinkDemand::Flushed,
    {
        SinkDemand::Flushed
    }

    /// Asks the consumer to close.
    ///
    /// A payload in flight is sent first. Then the consumer waits for write
    /// readiness one last time and closes; the descriptor stays open.
    pub fn poll_close(&mut self) -> (demand: SinkDemand)
        ensures
            final(self)@ == old(self)@.closing(),
            demand == final(self)@.pending(),
    {
        match self.state {
            SinkState::Idle => {
                self.state = SinkState::Closing;
            },
            SinkState::Ready => {
                self.state = SinkState::Closing;
            },
            _ => {},
        }
        self.demand()
    }

    /// Takes one event and says what has to happen next.
    pub fn step(&mut self, event: Event<()>) -> (demand: SinkDemand)
        ensures
            final(self)@ == old(self)@.after(event),
            demand == old(self)@.asks(event),
    {
        match (self.state, event) {
            (SinkState::Idle, Event::Readiness(Readiness::Pending)) => SinkDemand::Suspend,
            (SinkState::Idle, Event::Readiness(Readiness::Ready)) => {
                self.state = SinkState::Ready;
                SinkDemand::Accepting
            },
            (SinkState::Idle, Event::Readiness(Readiness::Failed(err))) => SinkDemand::Fail(err),
            (SinkState::SendWaiting, Event::Readiness(Readiness::Pending)) => SinkDemand::Suspend,
            (SinkState::SendWaiting, Event::Readiness(Readiness::Ready)) => {
                self.state = SinkState::SendAttempting;
                SinkDemand::Attempt
            },
            (SinkState::SendWaiting, Event::Readiness(Readiness::Failed(err))) => {
                self.state = SinkState::Idle;
                self.item = Vec::new();
                SinkDemand::Fail(err)
            },
            (SinkState::SendAttempting, Event::Outcome(Attempt::Completed(_))) => {
                self.state = SinkState::Idle;
                self.item = Vec::new();
                SinkDemand::Sent
            },
            (SinkState::SendAttempting, Event::Outcome(Attempt::WouldBlock)) => {
                self.state = SinkState::SendWaiting;
                SinkDemand::Await { clear: self.socket.clear_on_spurious_write() }
            },
            (SinkState::SendAttempting, Event::Outcome(Attempt::Failed(err))) => {
                self.state = SinkState::Idle;
                self.item = Vec::new();
                SinkDemand::Fail(err)
            },
            (SinkState::Closing, Event::Readiness(Readiness::Pending)) => SinkDemand::Suspend,
            (SinkState::Closing, Event::Readiness(Readiness::Ready)) => {
                self.state = SinkState::Closed;
                SinkDemand::Closed { clear: true }
            },
            (SinkState::Closing, Event::Readiness(Readiness::Failed(err))) => {
                self.state = SinkState::Idle;
                SinkDemand::Fail(err)
            },
            _ => self.demand(),
        }
    }

    /// Takes the result of the non-blocking send as the transport returned
    /// it.
    pub fn sent(&mut self, result: Result<(), std::io::Error>) -> (demand: SinkDemand)
        ensures
            final(self)@ == old(self)@.after(Event::Outcome(attempt_of(result))),
            demand == old(self)@.asks(Event::Outcome(attempt_of(result))),
    {
        self.step(Event::Outcome(classify(result)))
    }
}

/// A payload in flight goes the way of a single write with the socket's
/// policy: the consumer moves as that write moves, asks what it asks, and
/// keeps the payload as it was offered until the write has ended.
pub proof fn lemma_flight_is_a_write(consumer: SinkModel, event: Event<()>)
    requires
        consumer.state is SendWaiting || consumer.state is SendAttempting,
    ensures
        flight_phase(consumer.after(event).state) == next_phase(
            flight_phase(consumer.state),
            event,
        ),
        !(flight_phase(consumer.after(event).state) is Done) ==> consumer.after(event).item
            == consumer.item,
        flight_phase(consumer.after(event).state) is Done ==> consumer.after(event).state is Idle,
        match next_demand(
            flight_phase(consumer.state),
            consumer.socket.clear_on_spurious_write,
            event,
        ) {
            Demand::Await { clear } => consumer.asks(event) == SinkDemand::Await { clear },
            Demand::Suspend => consumer.asks(event) == SinkDemand::Suspend,
            Demand::Attempt => consumer.asks(event) == SinkDemand::Attempt,
            Demand::Finish(Ok(_)) => consumer.asks(event) == SinkDemand::Sent,
            Demand::Finish(Err(err)) => consumer.asks(event) == SinkDemand::Fail(err),
            Demand::Over => false,
        },
{
}

} // verus!
