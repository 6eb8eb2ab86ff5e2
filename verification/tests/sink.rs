use std::io::{Error, ErrorKind};
use tokio_socketcan_isotp::operation::Event;
use tokio_socketcan_isotp::outcome::Attempt;
use tokio_socketcan_isotp::readiness::{Interest, Readiness};
use tokio_socketcan_isotp::setup::{Setup, SetupDemand, SetupEvent};
use tokio_socketcan_isotp::sink::{SendConsumer, SinkDemand, SinkState};
use tokio_socketcan_isotp::socket::IsoTpSocket;

fn open_sender(descriptor: i32) -> IsoTpSocket {
    let mut setup = Setup::new();
    setup.step(SetupEvent::Created(Ok(descriptor)));
    setup.step(SetupEvent::Configured(Ok(())));
    match setup.step(SetupEvent::Registered(Ok(()))) {
        SetupDemand::Established(socket) => socket,
        other => panic!("setup did not finish: {:?}", other),
    }
}

#[test]
fn consumer_starts_idle() {
    let socket = open_sender(9);
    let consumer = SendConsumer::new(&socket);
    assert_eq!(consumer.state(), SinkState::Idle);
    assert_eq!(consumer.interest(), Interest::Writable);
    assert_eq!(consumer.socket().descriptor(), 9);
    assert!(consumer.item().is_empty());
    assert!(matches!(consumer.demand(), SinkDemand::Await { clear: false }));
}

#[test]
fn consumer_accepts_after_write_readiness() {
    let socket = open_sender(9);
    let mut consumer = SendConsumer::new(&socket);
    assert!(matches!(consumer.step(Event::Readiness(Readiness::Pending)), SinkDemand::Suspend));
    assert_eq!(consumer.state(), SinkState::Idle);
    assert!(matches!(consumer.step(Event::Readiness(Readiness::Ready)), SinkDemand::Accepting));
    assert_eq!(consumer.state(), SinkState::Ready);
    assert!(matches!(consumer.demand(), SinkDemand::Accepting));
}

#[test]
fn consumer_sends_offered_payload_at_once_when_ready() {
    let socket = open_sender(9);
    let mut consumer = SendConsumer::new(&socket);
    consumer.step(Event::Readiness(Readiness::Ready));
    assert!(matches!(consumer.start_send(vec![1, 2, 3]), SinkDemand::Attempt));
    assert_eq!(consumer.state(), SinkState::SendAttempting);
    assert_eq!(consumer.item(), &[1u8, 2, 3][..]);
    assert!(matches!(consumer.sent(Ok(())), SinkDemand::Sent));
    assert_eq!(consumer.state(), SinkState::Idle);
    assert!(consumer.item().is_empty());
}

#[test]
fn consumer_waits_first_when_offered_without_readiness() {
    let socket = open_sender(9);
    let mut consumer = SendConsumer::new(&socket);
    assert!(matches!(consumer.start_send(vec![4]), SinkDemand::Await { clear: false }));
    assert_eq!(consumer.state(), SinkState::SendWaiting);
    assert!(matches!(consumer.step(Event::Readiness(Readiness::Ready)), SinkDemand::Attempt));
    assert_eq!(consumer.item(), &[4u8][..]);
    assert!(matches!(consumer.sent(Ok(())), SinkDemand::Sent));
}

#[test]
fn consumer_retries_payload_after_would_block() {
    let socket = open_sender(9);
    let mut consumer = SendConsumer::new(&socket);
    consumer.step(Event::Readiness(Readiness::Ready));
    consumer.start_send(vec![5, 6]);
    for _ in 0..4 {
        let demand = consumer.sent(Err(Error::from(ErrorKind::WouldBlock)));
        assert!(matches!(demand, SinkDemand::Await { clear: true }));
        assert_eq!(consumer.state(), SinkState::SendWaiting);
        assert_eq!(consumer.item(), &[5u8, 6][..]);
        assert!(matches!(
            consumer.step(Event::Readiness(Readiness::Pending)),
            SinkDemand::Suspend
        ));
        assert!(matches!(consumer.step(Event::Readiness(Readiness::Ready)), SinkDemand::Attempt));
    }
    assert!(matches!(consumer.sent(Ok(())), SinkDemand::Sent));
    assert_eq!(consumer.state(), SinkState::Idle);
}

#[test]
fn consumer_follows_socket_policy_on_would_block() {
    let mut socket = open_sender(9);
    socket.set_clear_on_spurious_write(false);
    let mut consumer = SendConsumer::new(&socket);
    consumer.step(Event::Readiness(Readiness::Ready));
    consumer.start_send(vec![5]);
    let demand = consumer.step(Event::Outcome(Attempt::WouldBlock));
    assert!(matches!(demand, SinkDemand::Await { clear: false }));
}

#[test]
fn consumer_refuses_second_payload_in_flight() {
    let socket = open_sender(9);
    let mut consumer = SendConsumer::new(&socket);
    consumer.start_send(vec![1]);
    match consumer.start_send(vec![2, 2]) {
        SinkDemand::Refused(item) => assert_eq!(item, vec![2, 2]),
        other => panic!("unexpected demand: {:?}", other),
    }
    assert_eq!(consumer.item(), &[1u8][..]);
    assert_eq!(consumer.state(), SinkState::SendWaiting);
}

#[test]
fn consumer_fails_send_on_hard_error() {
    let socket = open_sender(9);
    let mut consumer = SendConsumer::new(&socket);
    consumer.step(Event::Readiness(Readiness::Ready));
    consumer.start_send(vec![1]);
    match consumer.sent(Err(Error::from(ErrorKind::BrokenPipe))) {
        SinkDemand::Fail(err) => assert_eq!(err.kind(), ErrorKind::BrokenPipe),
        other => panic!("unexpected demand: {:?}", other),
    }
    assert_eq!(consumer.state(), SinkState::Idle);
    assert!(consumer.item().is_empty());
}

#[test]
fn consumer_fails_when_poller_fails() {
    let socket = open_sender(9);
    let mut consumer = SendConsumer::new(&socket);
    let failure = Readiness::Failed(Error::from(ErrorKind::NotConnected));
    match consumer.step(Event::Readiness(failure)) {
        SinkDemand::Fail(err) => assert_eq!(err.kind(), ErrorKind::NotConnected),
        other => panic!("unexpected demand: {:?}", other),
    }
    assert_eq!(consumer.state(), SinkState::Idle);
    consumer.start_send(vec![8]);
    let failure = Readiness::Failed(Error::from(ErrorKind::NotConnected));
    assert!(matches!(consumer.step(Event::Readiness(failure)), SinkDemand::Fail(_)));
    assert_eq!(consumer.state(), SinkState::Idle);
    assert!(consumer.item().is_empty());
}

#[test]
fn flush_is_immediate_and_changes_nothing() {
    let socket = open_sender(9);
    let mut consumer = SendConsumer::new(&socket);
    assert!(matches!(consumer.poll_flush(), SinkDemand::Flushed));
    assert_eq!(consumer.state(), SinkState::Idle);
    consumer.start_send(vec![1]);
    assert!(matches!(consumer.poll_flush(), SinkDemand::Flushed));
    assert_eq!(consumer.state(), SinkState::SendWaiting);
    assert_eq!(consumer.item(), &[1u8][..]);
}

#[test]
fn close_waits_for_write_readiness_then_clears_guard() {
    let socket = open_sender(9);
    let mut consumer = SendConsumer::new(&socket);
    assert!(matches!(consumer.poll_close(), SinkDemand::Await { clear: false }));
    assert_eq!(consumer.state(), SinkState::Closing);
    assert!(matches!(consumer.step(Event::Readiness(Readiness::Pending)), SinkDemand::Suspend));
    assert!(matches!(consumer.poll_close(), SinkDemand::Await { clear: false }));
    let demand = consumer.step(Event::Readiness(Readiness::Ready));
    assert!(matches!(demand, SinkDemand::Closed { clear: true }));
    assert_eq!(consumer.state(), SinkState::Closed);
    assert!(matches!(consumer.poll_close(), SinkDemand::Closed { clear: false }));
    assert_eq!(socket.descriptor(), 9);
}

#[test]
fn close_sends_payload_in_flight_first() {
    let socket = open_sender(9);
    let mut consumer = SendConsumer::new(&socket);
    consumer.step(Event::Readiness(Readiness::Ready));
    consumer.start_send(vec![1]);
    assert!(matches!(consumer.poll_close(), SinkDemand::Attempt));
    assert_eq!(consumer.state(), SinkState::SendAttempting);
    assert!(matches!(consumer.sent(Ok(())), SinkDemand::Sent));
    assert!(matches!(consumer.poll_close(), SinkDemand::Await { clear: false }));
    assert_eq!(consumer.state(), SinkState::Closing);
}

#[test]
fn close_fails_when_poller_fails() {
    let socket = open_sender(9);
    let mut consumer = SendConsumer::new(&socket);
    consumer.poll_close();
    let failure = Readiness::Failed(Error::from(ErrorKind::NotConnected));
    match consumer.step(Event::Readiness(failure)) {
        SinkDemand::Fail(err) => assert_eq!(err.kind(), ErrorKind::NotConnected),
        other => panic!("unexpected demand: {:?}", other),
    }
    assert_eq!(consumer.state(), SinkState::Idle);
}

#[test]
fn closed_consumer_refuses_payloads() {
    let socket = open_sender(9);
    let mut consumer = SendConsumer::new(&socket);
    consumer.poll_close();
    match consumer.start_send(vec![3]) {
        SinkDemand::Refused(item) => assert_eq!(item, vec![3]),
        other => panic!("unexpected demand: {:?}", other),
    }
    consumer.step(Event::Readiness(Readiness::Ready));
    match consumer.start_send(vec![4]) {
        SinkDemand::Refused(item) => assert_eq!(item, vec![4]),
        other => panic!("unexpected demand: {:?}", other),
    }
    assert_eq!(consumer.state(), SinkState::Closed);
    assert!(matches!(consumer.step(Event::Readiness(Readiness::Ready)), SinkDemand::Closed {
        clear: false
    }));
}
