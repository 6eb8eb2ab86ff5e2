use std::collections::VecDeque;
use std::io::{Error, ErrorKind};
use tokio_socketcan_isotp::operation::{Demand, Event};
use tokio_socketcan_isotp::readiness::Readiness;
use tokio_socketcan_isotp::setup::{Setup, SetupDemand, SetupEvent};
use tokio_socketcan_isotp::sink::{SendConsumer, SinkDemand};
use tokio_socketcan_isotp::socket::IsoTpSocket;
use tokio_socketcan_isotp::stream::{ReceiveSequence, SequenceDemand};

/// A virtual interface: what is sent from one address to another waits in a
/// queue until the socket bound the other way round receives it.
struct Interface {
    queues: Vec<(u32, u32, VecDeque<Vec<u8>>)>,
    next_descriptor: i32,
    capacity: usize,
}

/// A socket bound to a pair of addresses on the interface.
struct Endpoint {
    socket: IsoTpSocket,
    source: u32,
    destination: u32,
}

impl Interface {
    fn new(capacity: usize) -> Self {
        Interface { queues: Vec::new(), next_descriptor: 3, capacity }
    }

    fn open(&mut self, source: u32, destination: u32) -> Endpoint {
        let mut setup = Setup::new();
        assert!(matches!(setup.demand(), SetupDemand::Open));
        let descriptor = self.next_descriptor;
        self.next_descriptor += 1;
        setup.step(SetupEvent::Created(Ok(descriptor)));
        setup.step(SetupEvent::Configured(Ok(())));
        match setup.step(SetupEvent::Registered(Ok(()))) {
            SetupDemand::Established(socket) => Endpoint { socket, source, destination },
            other => panic!("setup did not finish: {:?}", other),
        }
    }

    fn queue(&mut self, from: u32, to: u32) -> &mut VecDeque<Vec<u8>> {
        if let Some(at) = self.queues.iter().position(|q| q.0 == from && q.1 == to) {
            return &mut self.queues[at].2;
        }
        self.queues.push((from, to, VecDeque::new()));
        &mut self.queues.last_mut().unwrap().2
    }

    fn send(&mut self, from: u32, to: u32, payload: &[u8]) -> Result<(), Error> {
        let capacity = self.capacity;
        let queue = self.queue(from, to);
        if queue.len() >= capacity {
            return Err(Error::from(ErrorKind::WouldBlock));
        }
        queue.push_back(payload.to_vec());
        Ok(())
    }

    fn receive(&mut self, from: u32, to: u32) -> Result<Vec<u8>, Error> {
        match self.queue(from, to).pop_front() {
            Some(payload) => Ok(payload),
            None => Err(Error::from(ErrorKind::WouldBlock)),
        }
    }

    fn write(&mut self, endpoint: &Endpoint, payload: &[u8]) -> Result<(), Error> {
        let mut op = endpoint.socket.write_packet(payload).expect("a write can always start");
        let mut demand = op.demand();
        for _ in 0..64 {
            demand = match demand {
                Demand::Await { .. } => op.step(Event::Readiness(Readiness::Ready)),
                Demand::Attempt => {
                    let result = self.send(endpoint.source, endpoint.destination, op.packet());
                    op.sent(result)
                }
                Demand::Finish(result) => return result,
                other => panic!("unexpected demand: {:?}", other),
            };
        }
        panic!("the write did not end")
    }

    fn read(&mut self, endpoint: &Endpoint) -> Result<Vec<u8>, Error> {
        let mut op = endpoint.socket.read_packet().expect("a read can always start");
        let mut demand = op.demand();
        for _ in 0..64 {
            demand = match demand {
                Demand::Await { .. } => op.step(Event::Readiness(Readiness::Ready)),
                Demand::Attempt => {
                    let result = self.receive(endpoint.destination, endpoint.source);
                    op.received(result)
                }
                Demand::Finish(result) => return result,
                other => panic!("unexpected demand: {:?}", other),
            };
        }
        panic!("the read did not end")
    }
}

#[test]
fn payload_and_empty_reply_cross_the_interface() {
    let mut interface = Interface::new(8);
    let a = interface.open(0x123, 0x321);
    let b = interface.open(0x321, 0x123);
    interface.write(&a, &[0xde, 0xad, 0xbe, 0xef]).expect("A writes");
    let got = interface.read(&b).expect("B reads");
    assert_eq!(got, vec![0xde, 0xad, 0xbe, 0xef]);
    interface.write(&b, &[]).expect("B writes back");
    let reply = interface.read(&a).expect("A reads");
    assert_eq!(reply, Vec::<u8>::new());
}

#[test]
fn payloads_of_every_length_arrive_unchanged() {
    let mut interface = Interface::new(1);
    let a = interface.open(0x123, 0x321);
    let b = interface.open(0x321, 0x123);
    for length in [0usize, 1, 7, 8, 62, 63, 64, 255, 256, 4095] {
        let payload: Vec<u8> = (0..length).map(|i| (i % 251) as u8).collect();
        interface.write(&a, &payload).expect("A writes");
        let got = interface.read(&b).expect("B reads");
        assert_eq!(got, payload);
    }
}

#[test]
fn write_waits_out_a_full_queue_until_peer_drains() {
    let mut interface = Interface::new(1);
    let a = interface.open(0x123, 0x321);
    let b = interface.open(0x321, 0x123);
    interface.write(&a, &[1]).expect("first write");
    let second = [2u8];
    let mut op = a.socket.write_packet(&second).unwrap();
    let mut blocked = 0;
    for _ in 0..10 {
        assert!(matches!(op.step(Event::Readiness(Readiness::Ready)), Demand::Attempt));
        let result = interface.send(a.source, a.destination, op.packet());
        match op.sent(result) {
            Demand::Await { clear: true } => blocked += 1,
            other => panic!("unexpected demand: {:?}", other),
        }
    }
    assert_eq!(blocked, 10);
    assert_eq!(interface.read(&b).unwrap(), vec![1]);
    assert!(matches!(op.step(Event::Readiness(Readiness::Ready)), Demand::Attempt));
    let result = interface.send(a.source, a.destination, op.packet());
    assert!(matches!(op.sent(result), Demand::Finish(Ok(()))));
    assert_eq!(interface.read(&b).unwrap(), vec![2]);
}

#[test]
fn dropped_read_loses_nothing_for_the_next_one() {
    let mut interface = Interface::new(4);
    let a = interface.open(0x123, 0x321);
    let b = interface.open(0x321, 0x123);
    {
        let mut abandoned = b.socket.read_packet().unwrap();
        abandoned.step(Event::Readiness(Readiness::Ready));
    }
    interface.write(&a, &[0x42]).unwrap();
    assert_eq!(interface.read(&b).unwrap(), vec![0x42]);
}

#[test]
fn consumer_feeds_sequence_across_the_interface() {
    let mut interface = Interface::new(2);
    let a = interface.open(0x123, 0x321);
    let b = interface.open(0x321, 0x123);
    let mut consumer = SendConsumer::new(&a.socket);
    let mut sequence = ReceiveSequence::new(&b.socket);
    let outbound = vec![vec![1u8, 2], vec![], vec![3u8]];
    let mut inbound = Vec::new();
    for payload in outbound.iter() {
        assert!(matches!(consumer.step(Event::Readiness(Readiness::Ready)), SinkDemand::Accepting));
        assert!(matches!(consumer.start_send(payload.clone()), SinkDemand::Attempt));
        let result = interface.send(a.source, a.destination, consumer.item());
        assert!(matches!(consumer.sent(result), SinkDemand::Sent));
        assert!(matches!(
            sequence.step(Event::Readiness(Readiness::Ready)),
            SequenceDemand::Attempt
        ));
        let arrived = interface.receive(b.destination, b.source);
        match sequence.received(arrived) {
            SequenceDemand::Yield(Ok(item)) => inbound.push(item),
            other => panic!("unexpected demand: {:?}", other),
        }
    }
    assert_eq!(inbound, outbound);
}
