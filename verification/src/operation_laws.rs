//! What holds of each operation on a connection, said of what goes in and what comes out.

use futures::sync::mpsc::Receiver;
use serde_json::Value;
use vstd::prelude::*;

use crate::channel::{command_buffer, commands_joined, state_buffer, states_joined};
use crate::connection::{channel_view, Connection, ConnectionView, PollStep, UpstreamStep};
use crate::error::Error;
use crate::model::{ChannelId, Event, ReadyEvent, ServerId};
use crate::poll::{Async, AsyncSink, Poll, StartSend};
use crate::reconnector::{ConnState, DisconnectStep, Reconnector};
use crate::session::SessionInfo;
use crate::voice_commands::CommandStep;
use crate::voice_internal::{VoiceControlChannel, VoiceSink};

verus! {

/// Whatever shard is asked for, a connection starts its one attempt with a session for exactly that
/// shard that has nothing to resume: no gateway, no session, no event seen, no failure and no
/// heartbeat. It then has that attempt in hand and nothing else: no commands, no voice channels, no
/// user and no session.
pub proof fn law_connections_begin_for_their_shard<
    Attempt,
    Conn,
    Start: FnOnce(SessionInfo) -> Attempt,
>(shard_info: Option<[u8; 2]>, start_connect: Start, conn: Connection<Attempt, Conn>)
    requires
        call_ensures(
            Connection::<Attempt, Conn>::connect::<Start>,
            (shard_info, start_connect),
            conn,
        ),
    ensures
        exists|session: SessionInfo, attempt: Attempt| #[trigger]
            start_connect.ensures((session,), attempt) && {
                &&& session.shard_info == shard_info
                &&& session.gateway_url is None
                &&& session.gateway_failures == 0
                &&& session.session_id is None
                &&& session.last_seq == 0
                &&& session.keepalive_interval == 0
                &&& conn@.upstream == ConnState::<Attempt, Conn>::Connecting(attempt)
            },
        conn@.command_rx is None,
        conn@.command_tx is None,
        conn@.pending_command is None,
        conn@.user_id is None,
        conn@.session_id is None,
        forall|key: u64| !#[trigger] conn@.channels.contains_key(key),
{
}

/// The value of a voice channel shows what its fold knows, the version that waits, if one does, and
/// the way to the user's end.
pub proof fn law_channel_values_show_every_part(sink: VoiceSink)
    ensures
        channel_view(sink).state == sink.transform().state@,
        sink.pending() matches Some(state) ==> channel_view(sink).pending == Some(state@),
        sink.pending() is None ==> channel_view(sink).pending is None,
        channel_view(sink).upstream == sink.upstream(),
{
}

/// A poll begins with one of the voice channels if there are any, and leaves all the others, each
/// once, for later; without any it begins with the gateway connection.
pub proof fn law_polls_begin_with_the_channels<Attempt, Conn>(
    conn: &Connection<Attempt, Conn>,
    step: PollStep,
    key: u64,
)
    requires
        call_ensures(Connection::<Attempt, Conn>::poll, (conn,), step),
    ensures
        step is FlushChannel || step is PollUpstream,
        step is PollUpstream ==> !conn@.channels.contains_key(key),
        step matches PollStep::FlushChannel { server_id, rest } ==> {
            &&& conn@.channels.contains_key(server_id.0)
            &&& conn@.channels.contains_key(key) <==> server_id.0 == key || rest@.contains(
                ServerId(key),
            )
            &&& !rest@.contains(server_id)
            &&& rest@.no_duplicates()
        },
{
    if let PollStep::FlushChannel { server_id, rest } = step {
        let ids = rest@.push(server_id);
        assert(ids[rest@.len() as int] == server_id);
        assert(ids.contains(ServerId(server_id.0)));
        assert(forall|i: int| 0 <= i < rest@.len() ==> ids[i] == rest@[i]);
        if rest@.contains(ServerId(key)) {
            let i = choose|i: int| 0 <= i < rest@.len() && rest@[i] == ServerId(key);
            assert(ids[i] == ServerId(key));
        }
        if ids.contains(ServerId(key)) && server_id.0 != key {
            let i = choose|i: int| 0 <= i < ids.len() && ids[i] == ServerId(key);
            assert(rest@[i] == ServerId(key));
        }
        if rest@.contains(server_id) {
            let i = choose|i: int| 0 <= i < rest@.len() && rest@[i] == server_id;
            assert(ids[i] == ids[rest@.len() as int]);
        }
        assert forall|i: int, j: int| 0 <= i < j < rest@.len() implies rest@[i] != rest@[j] by {
            assert(ids[i] != ids[j]);
        }
    }
}

/// A voice channel that was flushed is followed by the next that is left, and after the last comes
/// the gateway connection, also if the flush is not through yet. The first error ends the poll, just
/// as it is, and leaves the other channels be.
pub proof fn law_flushed_channels_are_followed_by_the_next<Attempt, Conn>(
    conn: &Connection<Attempt, Conn>,
    rest: Vec<ServerId>,
    reply: Poll<(), Error>,
    step: PollStep,
)
    requires
        call_ensures(Connection::<Attempt, Conn>::channel_flushed, (conn, rest, reply), step),
    ensures
        reply is Ok && rest@.len() == 0 ==> step is PollUpstream,
        reply is Ok && rest@.len() > 0 ==> {
            &&& step matches PollStep::FlushChannel { server_id, rest: left }
            &&& server_id == rest@.last()
            &&& left@ == rest@.drop_last()
        },
        reply matches Err(e) ==> step == PollStep::Done(Err(e)),
{
    if let PollStep::FlushChannel { server_id, rest: left } = step {
        assert(left@.push(server_id).last() == server_id);
        assert(left@.push(server_id).drop_last() =~= left@);
    }
}

/// Whatever the gateway connection comes up with is returned as it is: every event, the end of the
/// events and every error. Only while there is nothing to read are commands passed on instead.
pub proof fn law_events_reach_the_user_unchanged<Attempt, Conn>(
    conn: &mut Connection<Attempt, Conn>,
    result: Poll<Option<Event>, Error>,
    step: PollStep,
)
    requires
        call_ensures(Connection::<Attempt, Conn>::upstream_polled, (conn, result), step),
    ensures
        result matches Ok(Async::Ready(Some(event))) ==> step == PollStep::Done(
            Ok(Async::Ready(Some(event))),
        ),
        result == Ok::<Async<Option<Event>>, Error>(Async::Ready(None)) ==> step == PollStep::Done(
            Ok(Async::Ready(None)),
        ),
        result matches Err(e) ==> step == PollStep::Done(Err(e)),
        result == Ok::<Async<Option<Event>>, Error>(Async::NotReady) ==> step
            == PollStep::ProcessCommands,
        !(result matches Ok(Async::Ready(Some(_)))) ==> final(conn)@ == old(conn)@,
{
}

/// No event, whatever it is, touches the gateway connection, the commands or the ways to the users'
/// ends, opens or drops a voice channel, or moves one to another server.
pub proof fn law_events_only_tell_channels<Attempt, Conn>(
    conn: &mut Connection<Attempt, Conn>,
    event: Event,
    step: PollStep,
    key: u64,
)
    requires
        call_ensures(
            Connection::<Attempt, Conn>::upstream_polled,
            (conn, Ok(Async::Ready(Some(event)))),
            step,
        ),
    ensures
        final(conn)@.upstream == old(conn)@.upstream,
        final(conn)@.command_rx == old(conn)@.command_rx,
        final(conn)@.command_tx == old(conn)@.command_tx,
        final(conn)@.pending_command == old(conn)@.pending_command,
        final(conn)@.channels.contains_key(key) <==> old(conn)@.channels.contains_key(key),
        old(conn)@.channels.contains_key(key) ==> {
            &&& final(conn)@.channels[key].upstream == old(conn)@.channels[key].upstream
            &&& final(conn)@.channels[key].state.server_id == old(
                conn,
            )@.channels[key].state.server_id
        },
        !(event is Ready) ==> {
            &&& final(conn)@.user_id == old(conn)@.user_id
            &&& final(conn)@.session_id == old(conn)@.session_id
        },
        event is Other ==> final(conn)@ == old(conn)@,
{
}

/// When a session has started, the connection knows its user and the session. A voice channel hears
/// of each of the two exactly if it is news to the connection: of a user it takes over the user, of
/// a session the session, and with it it forgets the voice server and the voice channel. What it has
/// heard of it has to tell, with all else that it knows; a channel that heard of nothing is as it
/// was.
pub proof fn law_started_sessions_are_told<Attempt, Conn>(
    conn: &mut Connection<Attempt, Conn>,
    ready: ReadyEvent,
    step: PollStep,
    key: u64,
)
    requires
        call_ensures(
            Connection::<Attempt, Conn>::upstream_polled,
            (conn, Ok(Async::Ready(Some(Event::Ready(ready))))),
            step,
        ),
    ensures
        final(conn)@.user_id == Some(ready.user.id),
        final(conn)@.session_id == Some(ready.session_id@),
        old(conn)@.channels.contains_key(key) ==> {
            let before = old(conn)@.channels[key];
            let after = final(conn)@.channels[key];
            let new_user = old(conn)@.user_id != Some(ready.user.id);
            let new_session = old(conn)@.session_id != Some(ready.session_id@);
            &&& final(conn)@.channels.contains_key(key)
            &&& new_user ==> after.state.user_id == Some(ready.user.id)
            &&& !new_user ==> after.state.user_id == before.state.user_id
            &&& new_session ==> {
                &&& after.state.session_id == Some(ready.session_id@)
                &&& after.state.endpoint is None
                &&& after.state.voice_token is None
                &&& after.state.current_channel is None
            }
            &&& !new_session ==> {
                &&& after.state.session_id == before.state.session_id
                &&& after.state.endpoint == before.state.endpoint
                &&& after.state.voice_token == before.state.voice_token
                &&& after.state.current_channel == before.state.current_channel
            }
            &&& new_user || new_session ==> after.pending == Some(after.state)
            &&& !new_user && !new_session ==> after == before
        },
{
}

/// When an interrupted session goes on, every voice channel has to tell what it knows, unchanged.
pub proof fn law_resumed_sessions_are_told<Attempt, Conn>(
    conn: &mut Connection<Attempt, Conn>,
    trace: Vec<Option<String>>,
    step: PollStep,
    key: u64,
)
    requires
        call_ensures(
            Connection::<Attempt, Conn>::upstream_polled,
            (conn, Ok(Async::Ready(Some((Event::Resumed { trace }))))),
            step,
        ),
        old(conn)@.channels.contains_key(key),
    ensures
        final(conn)@.channels.contains_key(key),
        final(conn)@.channels[key].state == old(conn)@.channels[key].state,
        final(conn)@.channels[key].pending == Some(old(conn)@.channels[key].state),
{
}

/// An assigned voice server reaches the voice channel of its server, whether or not the assignment
/// names a voice channel: the channel knows its endpoint, or that it has none yet, and its token, is
/// in the voice channel that is named, or else in the one that it was in, and has all this to tell.
/// The user and the session stay.
pub proof fn law_server_updates_reach_their_channel<Attempt, Conn>(
    conn: &mut Connection<Attempt, Conn>,
    id: ServerId,
    channel_id: Option<ChannelId>,
    endpoint: Option<String>,
    token: String,
    step: PollStep,
)
    requires
        call_ensures(
            Connection::<Attempt, Conn>::upstream_polled,
            (
                conn,
                Ok(
                    Async::Ready(
                        Some(
                            (Event::VoiceServerUpdate {
                                server_id: Some(id),
                                channel_id,
                                endpoint,
                                token,
                            }),
                        ),
                    ),
                ),
            ),
            step,
        ),
        old(conn)@.channels.contains_key(id.0),
    ensures
        ({
            let before = old(conn)@.channels[id.0];
            let after = final(conn)@.channels[id.0];
            &&& final(conn)@.channels.contains_key(id.0)
            &&& endpoint matches Some(address) ==> after.state.endpoint == Some(address@)
            &&& endpoint is None ==> after.state.endpoint is None
            &&& after.state.voice_token == Some(token@)
            &&& channel_id is Some ==> after.state.current_channel == channel_id
            &&& channel_id is None ==> after.state.current_channel == before.state.current_channel
            &&& after.state.user_id == before.state.user_id
            &&& after.state.session_id == before.state.session_id
            &&& after.pending == Some(after.state)
        }),
{
}

/// An assigned voice server concerns no voice channel but that of its server, and without a server
/// it concerns none: all others are as they were.
pub proof fn law_server_updates_concern_no_other_channel<Attempt, Conn>(
    conn: &mut Connection<Attempt, Conn>,
    event: Event,
    step: PollStep,
    key: u64,
)
    requires
        call_ensures(
            Connection::<Attempt, Conn>::upstream_polled,
            (conn, Ok(Async::Ready(Some(event)))),
            step,
        ),
        event is VoiceServerUpdate,
        event->server_id != Some(ServerId(key)),
    ensures
        final(conn)@.channels.contains_key(key) <==> old(conn)@.channels.contains_key(key),
        old(conn)@.channels.contains_key(key) ==> final(conn)@.channels[key] == old(
            conn,
        )@.channels[key],
        event->server_id is None ==> final(conn)@ == old(conn)@,
{
}

/// A poll that found nothing to read ends with there being nothing yet once commands were passed on,
/// or with the very error that this came to.
pub proof fn law_polls_end_with_the_commands<Attempt, Conn>(
    conn: &Connection<Attempt, Conn>,
    processed: Result<(), Error>,
    step: PollStep,
)
    requires
        call_ensures(Connection::<Attempt, Conn>::commands_processed, (conn, processed), step),
    ensures
        processed is Ok ==> step == PollStep::Done(Ok(Async::NotReady)),
        processed matches Err(e) ==> step == PollStep::Done(Err(e)),
{
}

/// Passing on commands begins with the one that is pending, which is then no longer; without one the
/// receiver is polled if there is one, and else the gateway connection is flushed. Nothing else of
/// the connection changes.
pub proof fn law_commands_begin_with_the_pending_one<Attempt, Conn>(
    conn: &mut Connection<Attempt, Conn>,
    step: CommandStep,
)
    requires
        call_ensures(Connection::<Attempt, Conn>::process_voice_commands, (conn,), step),
    ensures
        final(conn)@ == (ConnectionView { pending_command: None, ..old(conn)@ }),
        old(conn)@.pending_command matches Some(command) ==> step == CommandStep::Send(command),
        old(conn)@.pending_command is None && old(conn)@.command_rx is Some ==> step
            == CommandStep::PollReceiver,
        old(conn)@.pending_command is None && old(conn)@.command_rx is None ==> step
            == CommandStep::PollComplete,
{
}

/// A command that is received is sent, just as it is; without one, the pending command is sent, or
/// the gateway connection is flushed. Nothing is pending then, and nothing else of the connection
/// changes.
pub proof fn law_received_commands_go_out<Attempt, Conn>(
    conn: &mut Connection<Attempt, Conn>,
    reply: Async<Value>,
    step: CommandStep,
)
    requires
        call_ensures(Connection::<Attempt, Conn>::command_received, (conn, reply), step),
    ensures
        final(conn)@ == (ConnectionView { pending_command: None, ..old(conn)@ }),
        reply matches Async::Ready(command) ==> step == CommandStep::Send(command),
        reply is NotReady ==> (old(conn)@.pending_command matches Some(command) ==> step
            == CommandStep::Send(command)),
        reply is NotReady && old(conn)@.pending_command is None ==> step
            == CommandStep::PollComplete,
{
}

/// A command that the gateway connection hands back is pending from then on, just as it is, and
/// passing on commands is over for now. After one that it took, the next is looked for in the same
/// way as at the beginning. Its error ends passing on commands, just as it is, and leaves what is
/// pending. Nothing else of the connection changes.
pub proof fn law_refused_commands_stay_pending<Attempt, Conn>(
    conn: &mut Connection<Attempt, Conn>,
    reply: StartSend<Value, Error>,
    step: CommandStep,
)
    requires
        call_ensures(Connection::<Attempt, Conn>::command_sent, (conn, reply), step),
    ensures
        reply matches Ok(AsyncSink::NotReady(command)) ==> {
            &&& final(conn)@ == (ConnectionView { pending_command: Some(command), ..old(conn)@ })
            &&& step == CommandStep::Done(Ok(()))
        },
        reply == Ok::<AsyncSink<Value>, Error>(AsyncSink::Ready) ==> {
            &&& final(conn)@ == (ConnectionView { pending_command: None, ..old(conn)@ })
            &&& old(conn)@.pending_command matches Some(command) ==> step == CommandStep::Send(
                command,
            )
            &&& old(conn)@.pending_command is None && old(conn)@.command_rx is Some ==> step
                == CommandStep::PollReceiver
            &&& old(conn)@.pending_command is None && old(conn)@.command_rx is None ==> step
                == CommandStep::PollComplete
        },
        reply matches Err(e) ==> {
            &&& final(conn)@ == old(conn)@
            &&& step == CommandStep::Done(Err(e))
        },
{
}

/// Passing on commands ends with the flush, whether or not that is through; its error is the result,
/// just as it is.
pub proof fn law_commands_end_with_the_flush<Attempt, Conn>(
    conn: &Connection<Attempt, Conn>,
    reply: Poll<(), Error>,
    step: CommandStep,
)
    requires
        call_ensures(Connection::<Attempt, Conn>::commands_flushed, (conn, reply), step),
    ensures
        reply is Ok ==> step == CommandStep::Done(Ok(())),
        reply matches Err(e) ==> step == CommandStep::Done(Err(e)),
{
}

/// Flushing a connection and sending over it begin by passing on commands, and the item to send is
/// kept as it is.
pub proof fn law_commands_go_before_everything_else<Attempt, Conn>(
    conn: &Connection<Attempt, Conn>,
    item: Value,
    flushing: UpstreamStep<(), Poll<(), Error>>,
    sending: UpstreamStep<Value, StartSend<Value, Error>>,
)
    requires
        call_ensures(Connection::<Attempt, Conn>::poll_complete, (conn,), flushing),
        call_ensures(Connection::<Attempt, Conn>::start_send, (conn, item), sending),
    ensures
        flushing is ProcessCommands,
        sending == UpstreamStep::<Value, StartSend<Value, Error>>::ProcessCommands(item),
{
}

/// Once commands were passed on, the gateway connection is flushed, or the very item is sent over
/// it. If passing on commands failed, neither is done, and the result is that very error.
pub proof fn law_failing_commands_stop_everything_else<Attempt, Conn>(
    conn: &Connection<Attempt, Conn>,
    item: Value,
    processed: Result<(), Error>,
    flushing: UpstreamStep<(), Poll<(), Error>>,
    sending: UpstreamStep<Value, StartSend<Value, Error>>,
)
    requires
        call_ensures(
            Connection::<Attempt, Conn>::poll_complete_processed,
            (conn, processed),
            flushing,
        ),
        call_ensures(
            Connection::<Attempt, Conn>::start_send_processed,
            (conn, item, processed),
            sending,
        ),
    ensures
        processed is Ok ==> {
            &&& flushing is Upstream
            &&& sending == UpstreamStep::<Value, StartSend<Value, Error>>::Upstream(item)
        },
        processed matches Err(e) ==> {
            &&& flushing == UpstreamStep::<(), Poll<(), Error>>::Done(Err(e))
            &&& sending == UpstreamStep::<Value, StartSend<Value, Error>>::Done(Err(e))
        },
{
}

/// Closing a connection drops its commands and all its voice channels, and leaves it with no gateway
/// connection in hand; the one that was up, and no other, is handed out to be closed. The user and
/// the session are still known.
pub proof fn law_close_drops_all_but_the_session<Attempt, Conn>(
    conn: &mut Connection<Attempt, Conn>,
    step: DisconnectStep<Conn>,
    key: u64,
)
    requires
        call_ensures(Connection::<Attempt, Conn>::close, (conn,), step),
    ensures
        final(conn)@.upstream is Closed,
        final(conn)@.command_rx is None,
        final(conn)@.command_tx is None,
        final(conn)@.pending_command is None,
        !final(conn)@.channels.contains_key(key),
        final(conn)@.user_id == old(conn)@.user_id,
        final(conn)@.session_id == old(conn)@.session_id,
        old(conn)@.upstream matches ConnState::Active(up) ==> step == DisconnectStep::<
            Conn,
        >::CloseConnection(up),
        !(old(conn)@.upstream is Active) ==> step == DisconnectStep::<Conn>::Done(
            Ok(Async::Ready(())),
        ),
{
}

/// A close is through whatever the gateway connection answered to it.
pub proof fn law_closes_always_go_through<Attempt, Conn>(
    conn: &Connection<Attempt, Conn>,
    reply: Poll<(), Error>,
    result: Poll<(), Error>,
)
    requires
        call_ensures(Connection::<Attempt, Conn>::disconnected, (conn, reply), result),
    ensures
        result == Ok::<Async<()>, Error>(Async::Ready(())),
{
}

/// A channel for commands that is there is kept, with all else. If there is none, both of its ends
/// are made, joined over one shared slot, and all else is kept.
pub proof fn law_command_channels_are_kept<Attempt, Conn>(conn: &mut Connection<Attempt, Conn>)
    requires
        call_ensures(Connection::<Attempt, Conn>::setup_tx_channel, (conn,), ()),
    ensures
        old(conn)@.command_tx is Some ==> final(conn)@ == old(conn)@,
        old(conn)@.command_tx is None ==> {
            &&& final(conn)@.command_tx matches Some(tx)
            &&& final(conn)@.command_rx matches Some(rx)
            &&& commands_joined(tx, rx)
            &&& command_buffer(tx) == 1
            &&& final(conn)@ == (ConnectionView {
                command_tx: Some(tx),
                command_rx: Some(rx),
                ..old(conn)@
            })
        },
{
}

/// A voice channel that is opened knows its server and, whatever was opened before, the user and the
/// session as far as they are known; and if the user is known, it has all this to tell. Of a voice
/// server it knows nothing. It is joined to the handle over one shared slot. All other voice
/// channels, the gateway connection, the pending command, the user and the session are as they were.
pub proof fn law_opened_channels_have_the_session_to_tell<Attempt, Conn>(
    conn: &mut Connection<Attempt, Conn>,
    server_id: ServerId,
    handle: VoiceControlChannel,
    key: u64,
)
    requires
        call_ensures(Connection::<Attempt, Conn>::voice_handle, (conn, server_id), handle),
    ensures
        ({
            let before = old(conn)@;
            let after = final(conn)@;
            let channel = after.channels[server_id.0];
            &&& after.channels.contains_key(server_id.0)
            &&& channel.state.server_id == server_id
            &&& channel.state.endpoint is None
            &&& channel.state.voice_token is None
            &&& channel.state.current_channel is None
            &&& before.user_id is Some ==> {
                &&& channel.state.user_id == before.user_id
                &&& channel.state.session_id == before.session_id
                &&& channel.pending == Some(channel.state)
            }
            &&& before.user_id is None ==> {
                &&& channel.state.user_id is None
                &&& channel.state.session_id is None
                &&& channel.pending is None
            }
            &&& states_joined(channel.upstream, handle.state_rx)
            &&& state_buffer(channel.upstream) == 1
            &&& key != server_id.0 ==> {
                &&& after.channels.contains_key(key) <==> before.channels.contains_key(key)
                &&& before.channels.contains_key(key) ==> after.channels[key]
                    == before.channels[key]
            }
            &&& after.upstream == before.upstream
            &&& after.pending_command == before.pending_command
            &&& after.user_id == before.user_id
            &&& after.session_id == before.session_id
        }),
{
}

/// All handles send their commands the same way: the first that is made sets up the channel for
/// commands, with one shared slot, and every later one is joined to the same receiver, which stays
/// in place.
pub proof fn law_handles_share_the_command_channel<Attempt, Conn>(
    conn: &mut Connection<Attempt, Conn>,
    server_id: ServerId,
    handle: VoiceControlChannel,
    rx: Receiver<Value>,
)
    requires
        call_ensures(Connection::<Attempt, Conn>::voice_handle, (conn, server_id), handle),
    ensures
        final(conn)@.command_tx is Some,
        old(conn)@.command_tx matches Some(tx) ==> {
            &&& final(conn)@.command_tx == Some(tx)
            &&& final(conn)@.command_rx == old(conn)@.command_rx
            &&& commands_joined(handle.mesg_tx, rx) == commands_joined(tx, rx)
            &&& command_buffer(handle.mesg_tx) == command_buffer(tx)
        },
        old(conn)@.command_tx is None ==> {
            &&& final(conn)@.command_rx matches Some(receiver)
            &&& commands_joined(final(conn)@.command_tx->0, receiver)
            &&& commands_joined(handle.mesg_tx, receiver)
            &&& command_buffer(handle.mesg_tx) == 1
            &&& command_buffer(final(conn)@.command_tx->0) == 1
        },
{
}

/// The reconnector that is lent out is that of the connection, which keeps it as the borrower leaves
/// it, with all else unchanged.
pub proof fn law_the_reconnector_is_lent_out<Attempt, Conn>(
    conn: &mut Connection<Attempt, Conn>,
    upstream: &mut Reconnector<Attempt, Conn>,
)
    requires
        call_ensures(Connection::<Attempt, Conn>::upstream_mut, (conn,), upstream),
    ensures
        old(upstream)@ == old(conn)@.upstream,
        final(conn)@ == (ConnectionView { upstream: final(upstream)@, ..old(conn)@ }),
{
}

/// The command receiver is lent out if there is one, and the connection keeps it as the borrower
/// leaves it, with all else unchanged.
pub proof fn law_the_command_receiver_is_lent_out<Attempt, Conn>(
    conn: &mut Connection<Attempt, Conn>,
    lent: Option<&mut Receiver<Value>>,
)
    requires
        call_ensures(Connection::<Attempt, Conn>::command_receiver_mut, (conn,), lent),
    ensures
        lent is Some <==> old(conn)@.command_rx is Some,
        lent matches Some(rx) ==> {
            &&& old(conn)@.command_rx == Some(*rx)
            &&& final(conn)@ == (ConnectionView { command_rx: Some(*final(rx)), ..old(conn)@ })
        },
        lent is None ==> final(conn)@ == old(conn)@,
{
}

/// The voice channel of a server is lent out if there is one, and the connection keeps it as the
/// borrower leaves it, with all other channels and all else unchanged.
pub proof fn law_voice_channels_are_lent_out<Attempt, Conn>(
    conn: &mut Connection<Attempt, Conn>,
    server_id: ServerId,
    lent: Option<&mut VoiceSink>,
    key: u64,
)
    requires
        call_ensures(Connection::<Attempt, Conn>::voice_channel_mut, (conn, server_id), lent),
    ensures
        lent is Some <==> old(conn)@.channels.contains_key(server_id.0),
        lent matches Some(sink) ==> {
            &&& channel_view(*sink) == old(conn)@.channels[server_id.0]
            &&& final(conn)@.channels.contains_key(server_id.0)
            &&& final(conn)@.channels[server_id.0] == channel_view(*final(sink))
        },
        key != server_id.0 || lent is None ==> {
            &&& final(conn)@.channels.contains_key(key) <==> old(conn)@.channels.contains_key(key)
            &&& old(conn)@.channels.contains_key(key) ==> final(conn)@.channels[key] == old(
                conn,
            )@.channels[key]
        },
        final(conn)@ == (ConnectionView { channels: final(conn)@.channels, ..old(conn)@ }),
{
}

} // verus!
