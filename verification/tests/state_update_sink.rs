use discord_voice::poll::{Async, AsyncSink};
use discord_voice::state_update_sink::{CloseStep, FlushStep, StateUpdateSink, Transform};

/// Adds up what it is given, and refuses to go below zero.
struct RunningTotal {
    total: i32,
}

impl Transform<i32, i32, String> for RunningTotal {
    fn apply(&mut self, item: i32) -> Result<i32, String> {
        if self.total + item < 0 {
            return Err(format!("{} is too little", self.total + item));
        }
        self.total += item;
        Ok(self.total)
    }
}

type TotalSink = StateUpdateSink<i32, i32, String, RunningTotal, Vec<i32>>;

fn sink() -> TotalSink {
    StateUpdateSink::new(Vec::new(), RunningTotal { total: 0 })
}

fn offered(sink: &mut TotalSink) -> Option<i32> {
    match sink.poll_complete() {
        FlushStep::Send(state) => Some(state),
        FlushStep::PollUpstream => None,
        FlushStep::Done(result) => panic!("flush ended with {:?}", result),
    }
}

#[test]
fn a_new_sink_has_nothing_to_send() {
    let mut sink = sink();
    assert_eq!(offered(&mut sink), None);
    assert!(matches!(sink.close(), CloseStep::CloseUpstream));
    assert_eq!(*sink.upstream_mut(), Vec::<i32>::new());
}

#[test]
fn start_send_never_pushes_back() {
    let mut sink = sink();
    for item in 1..50 {
        assert_eq!(sink.start_send(item), Ok(AsyncSink::Ready));
    }
    assert_eq!(offered(&mut sink), Some(1225));
}

#[test]
fn only_the_latest_version_is_sent() {
    let mut sink = sink();
    assert_eq!(sink.start_send(4), Ok(AsyncSink::Ready));
    assert_eq!(sink.start_send(5), Ok(AsyncSink::Ready));
    assert_eq!(sink.start_send(6), Ok(AsyncSink::Ready));
    assert_eq!(offered(&mut sink), Some(15));
    assert!(matches!(sink.sent(Ok(AsyncSink::Ready)), FlushStep::PollUpstream));
    assert_eq!(offered(&mut sink), None);
}

#[test]
fn a_rejected_version_is_offered_again() {
    let mut sink = sink();
    sink.start_send(4).unwrap();
    assert_eq!(offered(&mut sink), Some(4));
    assert!(matches!(sink.sent(Ok(AsyncSink::NotReady(4))), FlushStep::PollUpstream));
    assert_eq!(offered(&mut sink), Some(4));
}

#[test]
fn a_newer_version_replaces_a_rejected_one() {
    let mut sink = sink();
    sink.start_send(4).unwrap();
    assert_eq!(offered(&mut sink), Some(4));
    sink.sent(Ok(AsyncSink::NotReady(4)));
    sink.start_send(3).unwrap();
    assert_eq!(offered(&mut sink), Some(7));
    sink.sent(Ok(AsyncSink::Ready));
    assert_eq!(offered(&mut sink), None);
}

#[test]
fn an_item_that_is_refused_leaves_the_pending_version() {
    let mut sink = sink();
    sink.start_send(4).unwrap();
    assert_eq!(sink.start_send(-5), Err("-1 is too little".to_string()));
    assert_eq!(offered(&mut sink), Some(4));
}

#[test]
fn an_upstream_error_ends_the_flush_and_loses_the_version() {
    let mut sink = sink();
    sink.start_send(4).unwrap();
    assert_eq!(offered(&mut sink), Some(4));
    match sink.sent(Err("gone".to_string())) {
        FlushStep::Done(result) => assert_eq!(result, Err("gone".to_string())),
        _ => panic!("the flush should be over"),
    }
    assert_eq!(offered(&mut sink), None);
}

#[test]
fn close_flushes_a_pending_version_first() {
    let mut sink = sink();
    sink.start_send(4).unwrap();
    assert!(matches!(sink.close(), CloseStep::PollComplete));
    assert_eq!(offered(&mut sink), Some(4));
    sink.sent(Ok(AsyncSink::Ready));
    assert!(matches!(sink.flushed(Ok(Async::Ready(()))), CloseStep::CloseUpstream));
}

#[test]
fn close_waits_for_a_flush_that_is_not_through() {
    let mut sink = sink();
    sink.start_send(4).unwrap();
    assert!(matches!(sink.close(), CloseStep::PollComplete));
    match sink.flushed(Ok(Async::NotReady)) {
        CloseStep::Done(result) => assert_eq!(result, Ok(Async::NotReady)),
        _ => panic!("the close should wait"),
    }
}

#[test]
fn close_goes_on_after_a_flush_that_failed() {
    let mut sink = sink();
    sink.start_send(4).unwrap();
    assert!(matches!(sink.flushed(Err("gone".to_string())), CloseStep::CloseUpstream));
}

#[test]
fn close_does_not_cut_off_a_rejected_version() {
    let mut sink = sink();
    sink.start_send(4).unwrap();
    assert!(matches!(sink.close(), CloseStep::PollComplete));
    assert_eq!(offered(&mut sink), Some(4));
    sink.sent(Ok(AsyncSink::NotReady(4)));
    // The upstream sink got free only after it had rejected the version.
    match sink.flushed(Ok(Async::Ready(()))) {
        CloseStep::Done(result) => assert_eq!(result, Ok(Async::NotReady)),
        _ => panic!("the close should wait"),
    }
    assert!(matches!(sink.close(), CloseStep::PollComplete));
    assert_eq!(offered(&mut sink), Some(4));
    sink.sent(Ok(AsyncSink::Ready));
    assert!(matches!(sink.flushed(Ok(Async::Ready(()))), CloseStep::CloseUpstream));
}
