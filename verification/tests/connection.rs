use discord_voice::connection::{Connection, PollStep, UpstreamStep};
use discord_voice::error::Error;
use discord_voice::model::{ChannelId, CurrentUser, Event, ReadyEvent, ServerId, UserId};
use discord_voice::poll::{Async, AsyncSink, Poll};
use discord_voice::reconnector::{ConnectReply, DisconnectStep, Step};
use discord_voice::session::SessionInfo;
use discord_voice::state_update_sink::FlushStep;
use discord_voice::voice_commands::CommandStep;
use discord_voice::voice_internal::{map_channel_error, VoiceChannelState};
use futures::{Future, Sink, Stream};
use serde_json::Value;

type Conn = Connection<u8, u16>;

const CLOSED: Error = Error::Other("Attempted to use a closed connection");

fn connect() -> Conn {
    Connection::connect(None, |_| 1)
}

fn ready(user: u64, session: &str) -> Poll<Option<Event>, Error> {
    Ok(Async::Ready(Some(Event::Ready(ReadyEvent {
        user: CurrentUser { id: UserId(user) },
        session_id: session.to_string(),
    }))))
}

fn resumed() -> Poll<Option<Event>, Error> {
    Ok(Async::Ready(Some(Event::Resumed { trace: vec![Some("gateway-1".to_string())] })))
}

fn update(server: Option<u64>, token: &str) -> Poll<Option<Event>, Error> {
    Ok(Async::Ready(Some(Event::VoiceServerUpdate {
        server_id: server.map(ServerId),
        channel_id: Some(ChannelId(77)),
        endpoint: Some("voice.example".to_string()),
        token: token.to_string(),
    })))
}

fn receive(conn: &mut Conn, event: Poll<Option<Event>, Error>) {
    match conn.upstream_polled(event) {
        PollStep::Done(Ok(Async::Ready(Some(_)))) => {}
        _ => panic!("the event should be returned"),
    }
}

/// Takes the state that the channel of `server` has to send.
fn pending(conn: &mut Conn, server: u64) -> Option<VoiceChannelState> {
    match conn.voice_channel_mut(ServerId(server)).unwrap().poll_complete() {
        FlushStep::Send(state) => Some(state),
        _ => None,
    }
}

/// Polls the command receiver inside a task.
fn next_command(conn: &mut Conn) -> Async<Value> {
    let rx = conn.command_receiver_mut().unwrap();
    futures::future::lazy(|| {
        Ok::<_, ()>(match rx.poll() {
            Ok(futures::Async::Ready(Some(cmd))) => Async::Ready(cmd),
            Ok(futures::Async::NotReady) => Async::NotReady,
            _ => panic!("the command channel was closed"),
        })
    })
    .wait()
    .unwrap()
}

#[test]
fn connect_starts_an_attempt_for_a_fresh_session() {
    let mut started = Vec::new();
    let mut conn: Conn = Connection::connect(Some([1, 4]), |info: SessionInfo| {
        started.push(info);
        6
    });
    assert_eq!(started.len(), 1);
    assert_eq!(started[0].gateway_url, None);
    assert_eq!(started[0].gateway_failures, 0);
    assert_eq!(started[0].session_id, None);
    assert_eq!(started[0].last_seq, 0);
    assert_eq!(started[0].shard_info, Some([1, 4]));
    assert_eq!(started[0].keepalive_interval, 0);
    assert_eq!(conn.upstream_mut().attempt_mut().map(|a| *a), Some(6));
    assert!(conn.command_receiver_mut().is_none());
    assert!(matches!(conn.poll(), PollStep::PollUpstream));
}

#[test]
fn every_channel_is_flushed_once_before_the_gateway_is_polled() {
    let mut conn = connect();
    let _handles: Vec<_> = (0..5).map(|id| conn.voice_handle(ServerId(id * 10))).collect();
    let mut seen = Vec::new();
    let mut step = conn.poll();
    loop {
        step = match step {
            PollStep::FlushChannel { server_id, rest } => {
                seen.push(server_id.0);
                conn.channel_flushed(rest, Ok(Async::NotReady))
            }
            PollStep::PollUpstream => break,
            _ => panic!("the gateway should be polled next"),
        };
    }
    seen.sort();
    assert_eq!(seen, vec![0, 10, 20, 30, 40]);
}

#[test]
fn a_channel_that_fails_ends_the_poll() {
    let mut conn = connect();
    let _a = conn.voice_handle(ServerId(1));
    let _b = conn.voice_handle(ServerId(2));
    let gone = Error::Other("Detached from discord connection");
    match conn.poll() {
        PollStep::FlushChannel { rest, .. } => match conn.channel_flushed(rest, Err(gone)) {
            PollStep::Done(Err(e)) => assert_eq!(e, gone),
            _ => panic!("the poll should be over"),
        },
        _ => panic!("a channel should be flushed"),
    }
}

#[test]
fn ready_reaches_every_channel() {
    let mut conn = connect();
    let _a = conn.voice_handle(ServerId(1));
    let _b = conn.voice_handle(ServerId(2));
    assert!(pending(&mut conn, 1).is_none());
    receive(&mut conn, ready(3, "abc"));
    for server in 1..3 {
        let state = pending(&mut conn, server).unwrap();
        assert_eq!(state.server_id, ServerId(server));
        assert_eq!(state.user_id, Some(UserId(3)));
        assert_eq!(state.session_id, Some("abc".to_string()));
    }
}

#[test]
fn ready_is_told_once() {
    let mut conn = connect();
    let _a = conn.voice_handle(ServerId(1));
    receive(&mut conn, ready(3, "abc"));
    assert!(pending(&mut conn, 1).is_some());
    receive(&mut conn, ready(3, "abc"));
    assert!(pending(&mut conn, 1).is_none());
}

#[test]
fn a_new_user_alone_keeps_the_voice_server() {
    let mut conn = connect();
    let _a = conn.voice_handle(ServerId(1));
    receive(&mut conn, ready(3, "abc"));
    receive(&mut conn, update(Some(1), "t1"));
    receive(&mut conn, ready(4, "abc"));
    let state = pending(&mut conn, 1).unwrap();
    assert_eq!(state.user_id, Some(UserId(4)));
    assert_eq!(state.voice_token, Some("t1".to_string()));
}

#[test]
fn a_new_session_alone_resets_the_voice_server() {
    let mut conn = connect();
    let _a = conn.voice_handle(ServerId(1));
    receive(&mut conn, ready(3, "abc"));
    receive(&mut conn, update(Some(1), "t1"));
    receive(&mut conn, ready(3, "def"));
    let state = pending(&mut conn, 1).unwrap();
    assert_eq!(state.user_id, Some(UserId(3)));
    assert_eq!(state.session_id, Some("def".to_string()));
    assert_eq!(state.voice_token, None);
    assert_eq!(state.endpoint, None);
    assert_eq!(state.current_channel, None);
}

#[test]
fn a_late_channel_catches_up() {
    let mut conn = connect();
    let _a = conn.voice_handle(ServerId(1));
    receive(&mut conn, ready(3, "abc"));
    receive(&mut conn, update(Some(1), "t1"));
    let _b = conn.voice_handle(ServerId(2));
    let late = pending(&mut conn, 2).unwrap();
    let early = pending(&mut conn, 1).unwrap();
    assert_eq!(late.user_id, early.user_id);
    assert_eq!(late.session_id, early.session_id);
    assert_eq!(late.voice_token, None);
    assert_eq!(early.voice_token, Some("t1".to_string()));
}

#[test]
fn a_server_update_reaches_only_its_server() {
    let mut conn = connect();
    let _a = conn.voice_handle(ServerId(1));
    let _b = conn.voice_handle(ServerId(2));
    receive(&mut conn, update(Some(2), "t2"));
    assert!(pending(&mut conn, 1).is_none());
    let state = pending(&mut conn, 2).unwrap();
    assert_eq!(state.voice_token, Some("t2".to_string()));
    assert_eq!(state.endpoint, Some("voice.example".to_string()));
    assert_eq!(state.current_channel, Some(ChannelId(77)));
    assert!(conn.voice_channel_mut(ServerId(3)).is_none());
    receive(&mut conn, update(Some(3), "t3"));
    receive(&mut conn, update(None, "t4"));
    assert!(pending(&mut conn, 1).is_none());
    assert!(pending(&mut conn, 2).is_none());
}

#[test]
fn resumed_has_every_channel_tell_its_state_again() {
    let mut conn = connect();
    let _a = conn.voice_handle(ServerId(1));
    receive(&mut conn, ready(3, "abc"));
    let before = pending(&mut conn, 1).unwrap();
    assert!(pending(&mut conn, 1).is_none());
    receive(&mut conn, resumed());
    let again = pending(&mut conn, 1).unwrap();
    assert_eq!(format!("{:?}", again), format!("{:?}", before));
}

#[test]
fn other_events_concern_no_channel() {
    let mut conn = connect();
    let _a = conn.voice_handle(ServerId(1));
    let event = Event::Other { name: "TYPING_START".to_string(), data: Value::Null };
    receive(&mut conn, Ok(Async::Ready(Some(event))));
    assert!(pending(&mut conn, 1).is_none());
    assert!(matches!(conn.upstream_polled(Ok(Async::Ready(None))), PollStep::Done(Ok(Async::Ready(None)))));
    assert!(matches!(conn.upstream_polled(Err(CLOSED)), PollStep::Done(Err(_))));
    assert!(pending(&mut conn, 1).is_none());
}

#[test]
fn with_nothing_to_read_commands_are_passed_on() {
    let mut conn = connect();
    assert!(matches!(conn.upstream_polled(Ok(Async::NotReady)), PollStep::ProcessCommands));
    assert!(matches!(conn.commands_processed(Ok(())), PollStep::Done(Ok(Async::NotReady))));
    match conn.commands_processed(Err(CLOSED)) {
        PollStep::Done(Err(e)) => assert_eq!(e, CLOSED),
        _ => panic!("the poll should fail"),
    }
}

#[test]
fn a_second_handle_takes_the_place_of_the_first() {
    let mut conn = connect();
    let mut first = conn.voice_handle(ServerId(1));
    let _second = conn.voice_handle(ServerId(1));
    match conn.poll() {
        PollStep::FlushChannel { server_id, rest } => {
            assert_eq!(server_id, ServerId(1));
            assert!(rest.is_empty());
        }
        _ => panic!("a channel should be flushed"),
    }
    // The connection's end of the first channel is gone.
    assert!(first.state_rx.by_ref().wait().next().is_none());
}

#[test]
fn commands_of_all_handles_arrive_in_order() {
    let mut conn = connect();
    let mut a = conn.voice_handle(ServerId(1));
    let mut b = conn.voice_handle(ServerId(2));
    a.mesg_tx.try_send(Value::from(1)).unwrap();
    b.mesg_tx.try_send(Value::from(2)).unwrap();
    let mut sent = Vec::new();
    let mut step = conn.process_voice_commands();
    loop {
        step = match step {
            CommandStep::PollReceiver => {
                let got = next_command(&mut conn);
                conn.command_received(got)
            }
            CommandStep::Send(cmd) => {
                sent.push(cmd);
                conn.command_sent(Ok(AsyncSink::Ready))
            }
            CommandStep::PollComplete => conn.commands_flushed(Ok(Async::Ready(()))),
            CommandStep::Done(result) => {
                assert_eq!(result, Ok(()));
                break;
            }
        };
    }
    assert_eq!(sent, vec![Value::from(1), Value::from(2)]);
}

#[test]
fn the_command_channel_has_one_slot_and_one_for_each_sender() {
    let mut conn = connect();
    let mut a = conn.voice_handle(ServerId(1));
    assert!(a.mesg_tx.try_send(Value::from(1)).is_ok());
    assert!(a.mesg_tx.try_send(Value::from(2)).is_ok());
    assert!(a.mesg_tx.try_send(Value::from(3)).is_err());
    let mut b = conn.voice_handle(ServerId(2));
    assert!(b.mesg_tx.try_send(Value::from(4)).is_ok());
    assert!(b.mesg_tx.try_send(Value::from(5)).is_err());
}

#[test]
fn a_command_that_is_handed_back_goes_first_next_time() {
    let mut conn = connect();
    let _a = conn.voice_handle(ServerId(1));
    assert!(matches!(conn.process_voice_commands(), CommandStep::PollReceiver));
    let cmd = match conn.command_received(Async::Ready(Value::from(1))) {
        CommandStep::Send(cmd) => cmd,
        _ => panic!("the command should be sent"),
    };
    assert!(matches!(conn.command_sent(Ok(AsyncSink::NotReady(cmd))), CommandStep::Done(Ok(()))));
    match conn.process_voice_commands() {
        CommandStep::Send(cmd) => assert_eq!(cmd, Value::from(1)),
        _ => panic!("the pending command should be sent"),
    }
    assert!(matches!(conn.command_sent(Ok(AsyncSink::Ready)), CommandStep::PollReceiver));
    assert!(matches!(conn.command_received(Async::NotReady), CommandStep::PollComplete));
    assert!(matches!(conn.commands_flushed(Ok(Async::NotReady)), CommandStep::Done(Ok(()))));
}

#[test]
fn without_voice_channels_the_gateway_is_only_flushed() {
    let mut conn = connect();
    assert!(matches!(conn.process_voice_commands(), CommandStep::PollComplete));
    match conn.commands_flushed(Err(CLOSED)) {
        CommandStep::Done(result) => assert_eq!(result, Err(CLOSED)),
        _ => panic!("passing on commands should fail"),
    }
}

#[test]
fn an_error_ends_passing_on_commands() {
    let mut conn = connect();
    let _a = conn.voice_handle(ServerId(1));
    conn.command_received(Async::Ready(Value::from(1)));
    match conn.command_sent(Err(CLOSED)) {
        CommandStep::Done(result) => assert_eq!(result, Err(CLOSED)),
        _ => panic!("passing on commands should fail"),
    }
    assert!(matches!(conn.process_voice_commands(), CommandStep::PollReceiver));
}

#[test]
fn flushing_and_sending_wait_for_the_commands() {
    let conn = connect();
    assert!(matches!(conn.poll_complete(), UpstreamStep::ProcessCommands(())));
    assert!(matches!(conn.poll_complete_processed(Ok(())), UpstreamStep::Upstream(())));
    assert!(matches!(conn.poll_complete_processed(Err(CLOSED)), UpstreamStep::Done(Err(_))));
    match conn.start_send(Value::from(5)) {
        UpstreamStep::ProcessCommands(item) => assert_eq!(item, Value::from(5)),
        _ => panic!("commands should go first"),
    }
    match conn.start_send_processed(Value::from(5), Ok(())) {
        UpstreamStep::Upstream(item) => assert_eq!(item, Value::from(5)),
        _ => panic!("the item should be sent"),
    }
    match conn.start_send_processed(Value::from(5), Err(CLOSED)) {
        UpstreamStep::Done(out) => assert_eq!(out, Err(CLOSED)),
        _ => panic!("sending should fail"),
    }
}

#[test]
fn closing_cuts_off_everything() {
    let mut conn = connect();
    let mut a = conn.voice_handle(ServerId(1));
    conn.command_sent(Ok(AsyncSink::NotReady(Value::from(1))));
    conn.upstream_mut().poll_connected(ConnectReply::Ready(7));
    assert!(matches!(conn.close(), DisconnectStep::CloseConnection(7)));
    assert_eq!(conn.disconnected(Err(CLOSED)), Ok(Async::Ready(())));
    assert!(a.state_rx.by_ref().wait().next().is_none());
    assert!(a.mesg_tx.try_send(Value::from(2)).is_err());
    assert!(conn.command_receiver_mut().is_none());
    assert!(conn.voice_channel_mut(ServerId(1)).is_none());
    assert!(matches!(conn.close(), DisconnectStep::Done(Ok(Async::Ready(())))));
}

#[test]
fn a_closed_connection_fails() {
    let mut conn = connect();
    let _a = conn.voice_handle(ServerId(1));
    conn.close();
    assert!(matches!(conn.poll(), PollStep::PollUpstream));
    let polled = match conn.upstream_mut().poll() {
        Step::Done(out) => out,
        _ => panic!("nothing should be polled"),
    };
    assert!(matches!(conn.upstream_polled(polled), PollStep::ProcessCommands));
    assert!(matches!(conn.process_voice_commands(), CommandStep::PollComplete));
    let flushed = match conn.upstream_mut().poll_complete() {
        Step::Done(out) => out,
        _ => panic!("nothing should be flushed"),
    };
    let processed = match conn.commands_flushed(flushed) {
        CommandStep::Done(result) => result,
        _ => panic!("passing on commands should fail"),
    };
    match conn.commands_processed(processed) {
        PollStep::Done(Err(e)) => assert_eq!(e, CLOSED),
        _ => panic!("the poll should fail"),
    }
}

#[test]
fn the_command_channel_is_set_up_once() {
    let mut conn = connect();
    conn.setup_tx_channel();
    assert!(conn.command_receiver_mut().is_some());
    let mut a = conn.voice_handle(ServerId(1));
    a.mesg_tx.try_send(Value::from(1)).unwrap();
    conn.setup_tx_channel();
    let _b = conn.voice_handle(ServerId(2));
    assert_eq!(next_command(&mut conn), Async::Ready(Value::from(1)));
    assert_eq!(next_command(&mut conn), Async::NotReady);
}

/// Sends what the channel of `server` has to send over its state channel, inside a task.
fn send_state(conn: &mut Conn, server: u64) {
    let channel = conn.voice_channel_mut(ServerId(server)).unwrap();
    futures::future::lazy(|| {
        if let FlushStep::Send(state) = channel.poll_complete() {
            let reply = match map_channel_error(channel.upstream_mut().start_send(state)) {
                Ok(futures::AsyncSink::Ready) => Ok(AsyncSink::Ready),
                Ok(futures::AsyncSink::NotReady(state)) => Ok(AsyncSink::NotReady(state)),
                Err(e) => Err(e),
            };
            assert!(matches!(channel.sent(reply), FlushStep::PollUpstream));
        }
        Ok::<_, ()>(())
    })
    .wait()
    .unwrap()
}

#[test]
fn states_keep_arriving_at_the_handle_of_the_channel() {
    let mut conn = connect();
    let mut a = conn.voice_handle(ServerId(1));
    for (user, session) in vec![(3, "abc"), (4, "def"), (5, "ghi")] {
        let mut b = conn.voice_handle(ServerId(2));
        receive(&mut conn, ready(user, session));
        send_state(&mut conn, 1);
        send_state(&mut conn, 2);
        let state = a.state_rx.by_ref().wait().next().unwrap().unwrap();
        assert_eq!(state.server_id, ServerId(1));
        assert_eq!(state.user_id, Some(UserId(user)));
        assert_eq!(state.session_id, Some(session.to_string()));
        let state = b.state_rx.by_ref().wait().next().unwrap().unwrap();
        assert_eq!(state.server_id, ServerId(2));
        assert_eq!(state.user_id, Some(UserId(user)));
    }
}
