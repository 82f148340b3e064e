use discord_voice::error::Error;
use discord_voice::model::{ChannelId, ServerId, UserId};
use discord_voice::poll::AsyncSink;
use discord_voice::state_update_sink::FlushStep;
use discord_voice::voice_internal::{
    map_channel_error, new_handle, VoiceChannelNotice, VoiceChannelState, VoiceControlChannel,
    VoiceSink,
};
use futures::sync::mpsc;
use futures::{Async, Future, Sink, Stream};
use serde_json::Value;

fn ends(server: u64) -> (VoiceSink, VoiceControlChannel) {
    let (tx, _rx) = mpsc::channel(1);
    new_handle(ServerId(server), tx)
}

fn tell(sink: &mut VoiceSink, notice: VoiceChannelNotice) {
    assert!(matches!(sink.start_send(notice), Ok(AsyncSink::Ready)));
}

fn pending(sink: &mut VoiceSink) -> Option<VoiceChannelState> {
    match sink.poll_complete() {
        FlushStep::Send(state) => Some(state),
        _ => None,
    }
}

fn init(user: u64) -> VoiceChannelNotice {
    VoiceChannelNotice::Init { user_id: UserId(user) }
}

fn session(id: &str) -> VoiceChannelNotice {
    VoiceChannelNotice::SessionChange { session_id: id.to_string() }
}

fn update(channel: Option<u64>, endpoint: Option<&str>, token: &str) -> VoiceChannelNotice {
    VoiceChannelNotice::VoiceServerUpdate {
        server_id: Some(ServerId(9)),
        channel_id: channel.map(ChannelId),
        endpoint: endpoint.map(|e| e.to_string()),
        token: token.to_string(),
    }
}

/// Flushes a sink over its real channel, inside a task.
fn flush(sink: &mut VoiceSink) -> Result<Async<()>, Error> {
    futures::future::lazy(|| {
        Ok::<_, ()>(loop {
            match sink.poll_complete() {
                FlushStep::Send(state) => {
                    let reply = match map_channel_error(sink.upstream_mut().start_send(state)) {
                        Ok(futures::AsyncSink::Ready) => Ok(AsyncSink::Ready),
                        Ok(futures::AsyncSink::NotReady(state)) => Ok(AsyncSink::NotReady(state)),
                        Err(e) => Err(e),
                    };
                    if let FlushStep::Done(result) = sink.sent(reply) {
                        break result.map(|_| Async::Ready(()));
                    }
                    break map_channel_error(sink.upstream_mut().poll_complete());
                }
                _ => break map_channel_error(sink.upstream_mut().poll_complete()),
            }
        })
    })
    .wait()
    .unwrap()
}

#[test]
fn a_new_channel_knows_only_its_server() {
    let (mut sink, _handle) = ends(9);
    assert!(pending(&mut sink).is_none());
    tell(&mut sink, VoiceChannelNotice::Resumed);
    let state = pending(&mut sink).unwrap();
    assert_eq!(state.server_id, ServerId(9));
    assert_eq!(state.endpoint, None);
    assert_eq!(state.user_id, None);
    assert_eq!(state.session_id, None);
    assert_eq!(state.voice_token, None);
    assert_eq!(state.current_channel, None);
}

#[test]
fn notices_add_up() {
    let (mut sink, _handle) = ends(9);
    tell(&mut sink, init(3));
    tell(&mut sink, session("abc"));
    tell(&mut sink, update(Some(5), Some("voice.example"), "tok"));
    let state = pending(&mut sink).unwrap();
    assert_eq!(state.server_id, ServerId(9));
    assert_eq!(state.endpoint, Some("voice.example".to_string()));
    assert_eq!(state.user_id, Some(UserId(3)));
    assert_eq!(state.session_id, Some("abc".to_string()));
    assert_eq!(state.voice_token, Some("tok".to_string()));
    assert_eq!(state.current_channel, Some(ChannelId(5)));
}

#[test]
fn an_update_without_a_channel_keeps_the_channel() {
    let (mut sink, _handle) = ends(9);
    tell(&mut sink, update(Some(5), Some("one"), "t1"));
    tell(&mut sink, update(None, None, "t2"));
    let state = pending(&mut sink).unwrap();
    assert_eq!(state.current_channel, Some(ChannelId(5)));
    assert_eq!(state.endpoint, None);
    assert_eq!(state.voice_token, Some("t2".to_string()));
    tell(&mut sink, update(Some(6), Some("two"), "t3"));
    assert_eq!(pending(&mut sink).unwrap().current_channel, Some(ChannelId(6)));
}

#[test]
fn a_new_session_forgets_the_voice_server() {
    let (mut sink, _handle) = ends(9);
    tell(&mut sink, init(3));
    tell(&mut sink, session("abc"));
    tell(&mut sink, update(Some(5), Some("one"), "t1"));
    tell(&mut sink, session("def"));
    let state = pending(&mut sink).unwrap();
    assert_eq!(state.current_channel, None);
    assert_eq!(state.endpoint, None);
    assert_eq!(state.voice_token, None);
    assert_eq!(state.session_id, Some("def".to_string()));
    assert_eq!(state.user_id, Some(UserId(3)));
    assert_eq!(state.server_id, ServerId(9));
}

#[test]
fn the_last_user_counts() {
    let (mut sink, _handle) = ends(9);
    tell(&mut sink, init(3));
    tell(&mut sink, init(4));
    assert_eq!(pending(&mut sink).unwrap().user_id, Some(UserId(4)));
}

#[test]
fn the_server_of_an_update_does_not_move_the_channel() {
    let (mut sink, _handle) = ends(1);
    tell(&mut sink, update(Some(5), None, "t"));
    assert_eq!(pending(&mut sink).unwrap().server_id, ServerId(1));
}

#[test]
fn states_arrive_at_the_handle() {
    let (mut sink, mut handle) = ends(9);
    tell(&mut sink, init(3));
    assert!(flush(&mut sink).is_ok());
    let state = handle.state_rx.by_ref().wait().next().unwrap().unwrap();
    assert_eq!(state.user_id, Some(UserId(3)));
    assert_eq!(state.server_id, ServerId(9));
}

#[test]
fn a_full_channel_keeps_only_the_newest_state() {
    let (mut sink, mut handle) = ends(9);
    // One slot of the channel's own and one of its only sender.
    for user in 1..6 {
        tell(&mut sink, init(user));
        assert!(flush(&mut sink).is_ok());
    }
    let mut users = Vec::new();
    for _ in 0..2 {
        let state = handle.state_rx.by_ref().wait().next().unwrap().unwrap();
        users.push(state.user_id);
    }
    assert_eq!(users, vec![Some(UserId(1)), Some(UserId(2))]);
    assert!(flush(&mut sink).is_ok());
    let state = handle.state_rx.by_ref().wait().next().unwrap().unwrap();
    assert_eq!(state.user_id, Some(UserId(5)));
}

#[test]
fn a_dropped_handle_detaches_the_channel() {
    let (mut sink, handle) = ends(9);
    std::mem::drop(handle);
    tell(&mut sink, init(3));
    assert_eq!(flush(&mut sink), Err(Error::Other("Detached from discord connection")));
}

#[test]
fn channel_errors_are_mapped() {
    assert_eq!(map_channel_error::<u8, &str>(Ok(4)), Ok(4));
    assert_eq!(
        map_channel_error::<u8, &str>(Err("closed")),
        Err(Error::Other("Detached from discord connection"))
    );
}

#[test]
fn the_handle_keeps_the_command_sender_it_is_given() {
    let (tx, rx) = mpsc::channel(1);
    let (_sink, mut handle) = new_handle(ServerId(9), tx);
    handle.mesg_tx.try_send(Value::from(5)).unwrap();
    std::mem::drop(handle);
    let got: Vec<Value> = rx.wait().map(|v| v.unwrap()).collect();
    assert_eq!(got, vec![Value::from(5)]);
}

#[test]
fn states_and_notices_clone_faithfully() {
    let (mut sink, _handle) = ends(9);
    let notice = update(Some(5), Some("one"), "t1");
    tell(&mut sink, notice.clone());
    tell(&mut sink, notice);
    let state = pending(&mut sink).unwrap();
    assert_eq!(format!("{:?}", state.clone()), format!("{:?}", state));
    assert_eq!(state.endpoint, Some("one".to_string()));
}
