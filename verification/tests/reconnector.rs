use discord_voice::error::Error;
use discord_voice::model::Event;
use discord_voice::poll::{Async, AsyncSink, Poll};
use discord_voice::reconnector::{ConnectReply, DisconnectStep, Reconnector, Step};
use serde_json::Value;

const CLOSED: Error = Error::Other("Attempted to use a closed connection");
const BROKEN: Error = Error::Other("connection reset");

fn connecting() -> Reconnector<u8, u16> {
    let mut r = Reconnector::new();
    r._reconnect(1);
    r
}

fn active() -> Reconnector<u8, u16> {
    let mut r = connecting();
    assert!(matches!(r.poll_connected(ConnectReply::Ready(7)), Step::Use(())));
    r
}

fn other(name: &str) -> Event {
    Event::Other { name: name.to_string(), data: Value::Null }
}

fn not_ready<T>(r: &Poll<T, Error>) -> bool {
    matches!(r, Ok(Async::NotReady))
}

#[test]
fn polling_while_connecting_polls_the_attempt() {
    let mut r = connecting();
    assert_eq!(r.attempt_mut().map(|a| *a), Some(1));
    assert_eq!(r.connection_mut(), None);
    assert!(matches!(r.poll(), Step::PollConnect(())));
    match r.poll_connected(ConnectReply::NotReady) {
        Step::Done(out) => assert!(not_ready(&out)),
        _ => panic!("the poll should be over"),
    }
    assert_eq!(r.attempt_mut().map(|a| *a), Some(1));
}

#[test]
fn an_attempt_that_succeeds_is_used_at_once() {
    let mut r = connecting();
    assert!(matches!(r.poll_connected(ConnectReply::Ready(7)), Step::Use(())));
    assert_eq!(r.connection_mut().map(|c| *c), Some(7));
    assert_eq!(r.attempt_mut(), None);
    assert!(matches!(r.poll(), Step::Use(())));
}

#[test]
fn an_attempt_that_fails_is_replaced() {
    let mut r = connecting();
    match r.poll_connected(ConnectReply::Failed) {
        Step::Reconnect(out) => assert!(not_ready(&out)),
        _ => panic!("a new attempt is due"),
    }
    r._reconnect(2);
    assert!(r.reconnect_polled(ConnectReply::Failed));
    r._reconnect(3);
    assert!(!r.reconnect_polled(ConnectReply::NotReady));
    assert_eq!(r.attempt_mut().map(|a| *a), Some(3));
    assert!(matches!(r.poll(), Step::PollConnect(())));
}

#[test]
fn events_pass_through() {
    let r = active();
    match r.polled(Ok(Async::Ready(Some(other("TYPING_START"))))) {
        Step::Done(Ok(Async::Ready(Some(Event::Other { name, .. })))) => {
            assert_eq!(name, "TYPING_START")
        }
        _ => panic!("the event should be returned"),
    }
    match r.polled(Ok(Async::NotReady)) {
        Step::Done(out) => assert!(not_ready(&out)),
        _ => panic!("the poll should be over"),
    }
}

#[test]
fn an_error_or_the_end_of_events_reconnects() {
    let r = active();
    match r.polled(Err(BROKEN)) {
        Step::Reconnect(out) => assert!(not_ready(&out)),
        _ => panic!("a new attempt is due"),
    }
    match r.polled(Ok(Async::Ready(None))) {
        Step::Reconnect(out) => assert!(not_ready(&out)),
        _ => panic!("a new attempt is due"),
    }
}

#[test]
fn a_reconnect_can_succeed_at_once() {
    let mut r = active();
    r._reconnect(2);
    assert!(!r.reconnect_polled(ConnectReply::Ready(8)));
    assert_eq!(r.connection_mut().map(|c| *c), Some(8));
}

#[test]
fn flushing_passes_the_reply_on_or_reconnects() {
    let mut r = connecting();
    assert!(matches!(r.poll_complete(), Step::PollConnect(())));
    assert!(matches!(
        r.poll_complete_connected(ConnectReply::NotReady),
        Step::Done(Ok(Async::NotReady))
    ));
    assert!(matches!(
        r.poll_complete_connected(ConnectReply::Failed),
        Step::Reconnect(Ok(Async::NotReady))
    ));
    assert!(matches!(r.poll_complete_connected(ConnectReply::Ready(7)), Step::Use(())));
    assert!(matches!(r.completed(Ok(Async::Ready(()))), Step::Done(Ok(Async::Ready(())))));
    assert!(matches!(r.completed(Ok(Async::NotReady)), Step::Done(Ok(Async::NotReady))));
    assert!(matches!(r.completed(Err(BROKEN)), Step::Reconnect(Ok(Async::NotReady))));
}

#[test]
fn an_item_is_handed_back_while_there_is_no_connection() {
    let mut r = connecting();
    let item = match r.start_send(Value::from(5)) {
        Step::PollConnect(item) => item,
        _ => panic!("the attempt should be polled"),
    };
    match r.start_send_connected(item, ConnectReply::NotReady) {
        Step::Done(Ok(AsyncSink::NotReady(item))) => assert_eq!(item, Value::from(5)),
        _ => panic!("the item should be handed back"),
    }
    match r.start_send_connected(Value::from(6), ConnectReply::Failed) {
        Step::Reconnect(Ok(AsyncSink::NotReady(item))) => assert_eq!(item, Value::from(6)),
        _ => panic!("the item should be handed back"),
    }
    match r.start_send_connected(Value::from(7), ConnectReply::Ready(7)) {
        Step::Use(item) => assert_eq!(item, Value::from(7)),
        _ => panic!("the item should be sent"),
    }
}

#[test]
fn an_item_lost_with_the_connection_counts_as_sent() {
    let r = active();
    match r.start_send(Value::from(5)) {
        Step::Use(item) => assert_eq!(item, Value::from(5)),
        _ => panic!("the item should be sent"),
    }
    assert!(matches!(r.item_sent(Err(BROKEN)), Step::Reconnect(Ok(AsyncSink::Ready))));
    assert!(matches!(r.item_sent(Ok(AsyncSink::Ready)), Step::Done(Ok(AsyncSink::Ready))));
    match r.item_sent(Ok(AsyncSink::NotReady(Value::from(5)))) {
        Step::Done(Ok(AsyncSink::NotReady(item))) => assert_eq!(item, Value::from(5)),
        _ => panic!("the item should be handed back"),
    }
}

#[test]
fn a_closed_reconnector_refuses_work() {
    let mut r = active();
    assert!(matches!(r.close(), DisconnectStep::CloseConnection(7)));
    assert!(matches!(r.close(), DisconnectStep::Done(Ok(Async::Ready(())))));
    assert!(matches!(r.poll(), Step::Done(Ok(Async::NotReady))));
    match r.poll_complete() {
        Step::Done(out) => assert_eq!(out, Err(CLOSED)),
        _ => panic!("flushing should fail"),
    }
    match r.start_send(Value::from(5)) {
        Step::Done(out) => assert_eq!(out, Err(CLOSED)),
        _ => panic!("sending should fail"),
    }
}

#[test]
fn a_closed_reconnector_does_not_reconnect() {
    let mut r = connecting();
    assert!(matches!(r.close(), DisconnectStep::Done(Ok(Async::Ready(())))));
    assert!(matches!(r.polled(Err(BROKEN)), Step::Done(Ok(Async::NotReady))));
    assert!(matches!(r.completed(Err(BROKEN)), Step::Done(Ok(Async::NotReady))));
    assert!(matches!(r.item_sent(Err(BROKEN)), Step::Done(Ok(AsyncSink::Ready))));
    assert_eq!(r.attempt_mut(), None);
}

#[test]
fn a_close_is_through_whatever_the_connection_answers() {
    let mut r = active();
    assert!(matches!(r.close(), DisconnectStep::CloseConnection(7)));
    assert_eq!(r.disconnected(Ok(Async::Ready(()))), Ok(Async::Ready(())));
    assert_eq!(r.disconnected(Ok(Async::NotReady)), Ok(Async::Ready(())));
    assert_eq!(r.disconnected(Err(BROKEN)), Ok(Async::Ready(())));
}
