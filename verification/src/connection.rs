//! A gateway connection that voice channels hang off.
//!
//! Nothing here touches the network or a channel end. Each operation returns what is to be done
//! next, and a further method takes what came of it.

use std::collections::hash_map::Entry;
use std::collections::HashMap;

use futures::sync::mpsc::{Receiver, Sender};
use serde_json::Value;
use vstd::prelude::*;

use crate::channel::{
    clone_sender, command_buffer, command_channel, commands_joined, state_buffer, states_joined,
};
use crate::error::Error;
use crate::model::{text, Event, ServerId, UserId};
use crate::poll::{Async, AsyncSink, Poll, StartSend};
use crate::reconnector::{disconnect, ConnState, DisconnectStep, Reconnector};
use crate::session::SessionInfo;
use crate::voice_commands::{
    begin_commands, flush_commands, receive_command, send_command, take_command, CommandStep,
};
use crate::voice_internal::{
    new_handle, VoiceChannelNotice, VoiceChannelState, VoiceControlChannel, VoiceSink,
    VoiceStateView,
};

verus! {

broadcast use vstd::std_specs::hash::group_hash_axioms;

/// A gateway connection that comes back when it is lost, and the voice channels of its user.
pub struct Connection<Attempt, Conn> {
    upstream: Reconnector<Attempt, Conn>,
    voice_cmd_rx: Option<Receiver<Value>>,
    voice_cmd_tx: Option<Sender<Value>>,
    pending_voice_cmd: Option<Value>,
    voice_channels: HashMap<u64, VoiceSink>,
    user_id: Option<UserId>,
    session_id: Option<String>,
}

/// What polling a connection asks of the caller next.
pub enum PollStep {
    /// Flush the voice channel of this server, and pass the result to `channel_flushed`, together
    /// with the servers whose channels come after it.
    FlushChannel { server_id: ServerId, rest: Vec<ServerId> },
    /// Poll the gateway connection, and pass the result to `upstream_polled`.
    PollUpstream,
    /// Pass on commands, and pass the result to `commands_processed`.
    ProcessCommands,
    /// The poll is over, with this result.
    Done(Poll<Option<Event>, Error>),
}

/// What an operation on a connection asks of the caller next.
pub enum UpstreamStep<Input, Output> {
    /// Pass on commands, and pass on the input and the result.
    ProcessCommands(Input),
    /// Perform the operation on the gateway connection, and return what it returns.
    Upstream(Input),
    /// The operation is over, with this result.
    Done(Output),
}

/// What a connection holds for one voice channel.
pub struct ChannelView {
    /// What the channel knows, by all that it was told.
    pub state: VoiceStateView,
    /// The version of the state that has yet to be sent to the user's end.
    pub pending: Option<VoiceStateView>,
    /// The way to the user's end.
    pub upstream: Sender<VoiceChannelState>,
}

/// The value of a `Connection`.
pub struct ConnectionView<Attempt, Conn> {
    /// What the reconnector has in hand.
    pub upstream: ConnState<Attempt, Conn>,
    /// Where commands of voice channels come in.
    pub command_rx: Option<Receiver<Value>>,
    /// The sender that each new voice channel gets a copy of.
    pub command_tx: Option<Sender<Value>>,
    /// A command that was received and is yet to be sent.
    pub pending_command: Option<Value>,
    /// The voice channels, by the id of their server.
    pub channels: Map<u64, ChannelView>,
    /// The user that the connection is logged in as.
    pub user_id: Option<UserId>,
    /// The current session.
    pub session_id: Option<Seq<char>>,
}

/// What the connection holds in `sink`.
pub open spec fn channel_view(sink: VoiceSink) -> ChannelView {
    ChannelView {
        state: sink.transform().state@,
        pending: match sink.pending() {
            Some(state) => Some(state@),
            None => None,
        },
        upstream: sink.upstream(),
    }
}

impl ChannelView {
    /// The channel once it has been told `notice`.
    pub open spec fn told(self, notice: VoiceChannelNotice) -> ChannelView {
        ChannelView {
            state: self.state.after(notice),
            pending: Some(self.state.after(notice)),
            ..self
        }
    }
}

/// The channels once `notice` was given to the one of `server_id`, or to all of them if that is
/// `None`. A server without a channel is passed over.
pub open spec fn informed(
    channels: Map<u64, ChannelView>,
    server_id: Option<ServerId>,
    notice: VoiceChannelNotice,
) -> Map<u64, ChannelView> {
    match server_id {
        Some(id) => if channels.contains_key(id.0) {
            channels.insert(id.0, channels[id.0].told(notice))
        } else {
            channels
        },
        None => channels.map_values(|channel: ChannelView| channel.told(notice)),
    }
}

/// A channel of `server_id` that has been told the user and the session, as far as they are known.
pub open spec fn new_channel(
    server_id: ServerId,
    user_id: Option<UserId>,
    session_id: Option<Seq<char>>,
    upstream: Sender<VoiceChannelState>,
) -> ChannelView {
    let initial = VoiceStateView::initial(server_id);
    match user_id {
        None => ChannelView { state: initial, pending: None, upstream },
        Some(user_id) => {
            let state = match session_id {
                None => initial.with_user(user_id),
                Some(session_id) => initial.with_user(user_id).with_session(session_id),
            };
            ChannelView { state, pending: Some(state), upstream }
        },
    }
}

/// The channels that are still to be flushed at this step of a poll, the next one last.
pub open spec fn left_to_flush(step: PollStep) -> Seq<ServerId> {
    match step {
        PollStep::FlushChannel { server_id, rest } => rest@.push(server_id),
        _ => seq![],
    }
}

/// How `poll` goes on once the gateway connection was polled with this result.
pub open spec fn after_upstream_poll(result: Poll<Option<Event>, Error>) -> PollStep {
    if result == Ok::<Async<Option<Event>>, Error>(Async::NotReady) {
        PollStep::ProcessCommands
    } else {
        PollStep::Done(result)
    }
}

/// How a `poll` that found nothing to read ends once commands were passed on with this result.
pub open spec fn after_poll_commands(processed: Result<(), Error>) -> PollStep {
    PollStep::Done(
        match processed {
            Ok(_) => Ok(Async::NotReady),
            Err(e) => Err(e),
        },
    )
}

/// How an operation on `input` goes on once commands were passed on with this result.
pub open spec fn after_commands<Input, T>(
    input: Input,
    processed: Result<(), Error>,
) -> UpstreamStep<Input, Result<T, Error>> {
    match processed {
        Ok(_) => UpstreamStep::Upstream(input),
        Err(e) => UpstreamStep::Done(Err(e)),
    }
}

/// Whether a connection that was in state `before` has a channel for commands in state `after`: a
/// new one with one shared slot, if it had none.
pub open spec fn commands_set_up<Attempt, Conn>(
    before: ConnectionView<Attempt, Conn>,
    after: ConnectionView<Attempt, Conn>,
) -> bool {
    if before.command_tx is Some {
        &&& after.command_tx == before.command_tx
        &&& after.command_rx == before.command_rx
    } else {
        &&& after.command_tx matches Some(tx)
        &&& after.command_rx matches Some(rx)
        &&& commands_joined(tx, rx)
        &&& command_buffer(tx) == 1
    }
}

/// Whether setting up the channel for commands takes a connection from state `before` to state
/// `after`: nothing else changes, and nothing at all if there was one.
pub open spec fn command_channel_ready<Attempt, Conn>(
    before: ConnectionView<Attempt, Conn>,
    after: ConnectionView<Attempt, Conn>,
) -> bool {
    &&& commands_set_up(before, after)
    &&& after == (ConnectionView {
        command_rx: after.command_rx,
        command_tx: after.command_tx,
        ..before
    })
}

/// Whether opening a voice channel for `server_id` takes a connection from state `before` to state
/// `after`: the channel is told the user and the session, as far as they are known, and takes the
/// place of the one that the server may have had.
pub open spec fn channel_opened<Attempt, Conn>(
    before: ConnectionView<Attempt, Conn>,
    after: ConnectionView<Attempt, Conn>,
    server_id: ServerId,
) -> bool {
    &&& commands_set_up(before, after)
    &&& after.channels.contains_key(server_id.0)
    &&& after.channels =~= before.channels.insert(
        server_id.0,
        new_channel(
            server_id,
            before.user_id,
            before.session_id,
            after.channels[server_id.0].upstream,
        ),
    )
    &&& after == (ConnectionView {
        command_rx: after.command_rx,
        command_tx: after.command_tx,
        channels: after.channels,
        ..before
    })
}

/// Whether `ids` lists the servers of all the channels, each once.
pub open spec fn lists_channels(channels: Map<u64, ChannelView>, ids: Seq<ServerId>) -> bool {
    &&& ids.no_duplicates()
    &&& forall|key: u64|
        #![trigger ids.contains(ServerId(key))]
        #![trigger channels.contains_key(key)]
        ids.contains(ServerId(key)) <==> channels.contains_key(key)
}

impl<Attempt, Conn> ConnectionView<Attempt, Conn> {
    /// A connection that has just been made.
    pub open spec fn fresh(attempt: Attempt) -> ConnectionView<Attempt, Conn> {
        ConnectionView {
            upstream: ConnState::Connecting(attempt),
            command_rx: None,
            command_tx: None,
            pending_command: None,
            channels: Map::empty(),
            user_id: None,
            session_id: None,
        }
    }

    /// The connection once the user was announced. Channels hear of it if it is news.
    pub open spec fn with_user(self, user_id: UserId) -> ConnectionView<Attempt, Conn> {
        if self.user_id == Some(user_id) {
            self
        } else {
            ConnectionView {
                user_id: Some(user_id),
                channels: informed(self.channels, None, VoiceChannelNotice::Init { user_id }),
                ..self
            }
        }
    }

    /// The connection once the session was announced. Channels hear of it if it is news.
    pub open spec fn with_session(self, session_id: String) -> ConnectionView<Attempt, Conn> {
        if self.session_id == Some(session_id@) {
            self
        } else {
            ConnectionView {
                session_id: Some(session_id@),
                channels: informed(
                    self.channels,
                    None,
                    VoiceChannelNotice::SessionChange { session_id },
                ),
                ..self
            }
        }
    }

    /// The connection once it was closed.
    pub open spec fn after_close(self) -> ConnectionView<Attempt, Conn> {
        ConnectionView {
            upstream: ConnState::Closed,
            command_rx: None,
            command_tx: None,
            pending_command: None,
            channels: Map::empty(),
            ..self
        }
    }

    /// The connection once `event` was received.
    pub open spec fn after_event(self, event: Event) -> ConnectionView<Attempt, Conn> {
        match event {
            Event::Ready(ready) => self.with_user(ready.user.id).with_session(ready.session_id),
            Event::Resumed { trace: _ } => ConnectionView {
                channels: informed(self.channels, None, VoiceChannelNotice::Resumed),
                ..self
            },
            Event::VoiceServerUpdate { server_id, channel_id, endpoint, token } => {
                if server_id is Some {
                    ConnectionView {
                        channels: informed(
                            self.channels,
                            server_id,
                            VoiceChannelNotice::VoiceServerUpdate {
                                server_id,
                                channel_id,
                                endpoint,
                                token,
                            },
                        ),
                        ..self
                    }
                } else {
                    self
                }
            },
            Event::Other { name: _, data: _ } => self,
        }
    }
}

/// Whether two senders are ends of the same channel.
pub open spec fn same_state_channel(
    before: Sender<VoiceChannelState>,
    after: Sender<VoiceChannelState>,
) -> bool {
    forall|rx: Receiver<VoiceChannelState>| #[trigger]
        states_joined(after, rx) == states_joined(before, rx)
}

/// Whether flushing takes a voice channel from state `before` to state `after`: what waited to be
/// sent is on its way, or waits again, and the way to the user's end is the same.
pub open spec fn flushes(before: ChannelView, after: ChannelView) -> bool {
    &&& after.state == before.state
    &&& after.pending is Some ==> after.pending == before.pending
    &&& same_state_channel(before.upstream, after.upstream)
}

/// Whether flushing the voice channel of `key` takes a connection from state `before` to state
/// `after`.
pub open spec fn channel_flushing<Attempt, Conn>(
    before: ConnectionView<Attempt, Conn>,
    after: ConnectionView<Attempt, Conn>,
    key: u64,
) -> bool {
    &&& before.channels.contains_key(key)
    &&& after.channels =~= before.channels.insert(key, after.channels[key])
    &&& flushes(before.channels[key], after.channels[key])
    &&& after == (ConnectionView { channels: after.channels, ..before })
}

/// Whether two receivers are the same end of the same channel.
pub open spec fn same_channel(before: Receiver<Value>, after: Receiver<Value>) -> bool {
    forall|tx: Sender<Value>| #[trigger] commands_joined(tx, after) == commands_joined(tx, before)
}

/// Whether polling for a command takes a connection from state `before` to state `after`: the
/// receiver stays at the end of the same channel.
pub open spec fn command_polled<Attempt, Conn>(
    before: ConnectionView<Attempt, Conn>,
    after: ConnectionView<Attempt, Conn>,
) -> bool {
    &&& before.command_rx is Some
    &&& after.command_rx is Some
    &&& same_channel(before.command_rx->0, after.command_rx->0)
    &&& after == (ConnectionView { command_rx: after.command_rx, ..before })
}

/// Whether a connection gets from state `before` to state `after` in one step: an event is
/// received, a channel for commands is set up, a voice channel is opened or flushed, a command is
/// polled for, taken or handed back, the gateway connection changes, or the connection is closed.
pub open spec fn steps_to<Attempt, Conn>(
    before: ConnectionView<Attempt, Conn>,
    after: ConnectionView<Attempt, Conn>,
) -> bool {
    ||| exists|event: Event| after == #[trigger] before.after_event(event)
    ||| exists|server_id: ServerId| #[trigger] channel_opened(before, after, server_id)
    ||| exists|key: u64| #[trigger] channel_flushing(before, after, key)
    ||| command_channel_ready(before, after)
    ||| command_polled(before, after)
    ||| after == (ConnectionView {
        pending_command: after.pending_command,
        upstream: after.upstream,
        ..before
    })
    ||| after == before.after_close()
}

impl<Attempt, Conn> View for Connection<Attempt, Conn> {
    type V = ConnectionView<Attempt, Conn>;

    closed spec fn view(&self) -> ConnectionView<Attempt, Conn> {
        ConnectionView {
            upstream: self.upstream@,
            command_rx: self.voice_cmd_rx,
            command_tx: self.voice_cmd_tx,
            pending_command: self.pending_voice_cmd,
            channels: self.voice_channels@.map_values(|sink: VoiceSink| channel_view(sink)),
            user_id: self.user_id,
            session_id: text(self.session_id),
        }
    }
}

impl<Attempt, Conn> Connection<Attempt, Conn> {
    /// Makes a connection for a session of which nothing is known yet, and begins to set it up:
    /// `start_connect` starts an attempt to connect.
    pub fn connect<Start: FnOnce(SessionInfo) -> Attempt>(
        shard_info: Option<[u8; 2]>,
        start_connect: Start,
    ) -> (conn: Self)
        requires
            start_connect.requires((SessionInfo::initial(shard_info),)),
        ensures
            exists|attempt: Attempt| #[trigger]
                start_connect.ensures((SessionInfo::initial(shard_info),), attempt) && conn@
                    == ConnectionView::<Attempt, Conn>::fresh(attempt),
    {
        let mut upstream = Reconnector::new();
        let attempt = start_connect(SessionInfo::new(shard_info));
        upstream._reconnect(attempt);
        let conn = Connection {
            upstream,
            voice_cmd_rx: None,
            voice_cmd_tx: None,
            pending_voice_cmd: None,
            voice_channels: HashMap::new(),
            user_id: None,
            session_id: None,
        };
        assert(conn@.channels =~= Map::empty());
        conn
    }

    /// The ids of the servers that have a voice channel, each once.
    fn server_ids(&self) -> (ids: Vec<ServerId>)
        ensures
            lists_channels(self@.channels, ids@),
    {
        let mut ids: Vec<ServerId> = Vec::new();
        for key in keys: self.voice_channels.keys()
            invariant
                keys.seq() == vstd::std_specs::iter::IteratorSpec::remaining(
                    &vstd::std_specs::hash::spec_keys_iter(&self.voice_channels),
                ),
                ids@.len() == keys.index(),
                forall|i: int| 0 <= i < ids@.len() ==> #[trigger] ids@[i] == ServerId(*keys.seq()[i]),
        {
            ids.push(ServerId(*key));
        }
        proof {
            let keys = vstd::std_specs::iter::IteratorSpec::remaining(
                &vstd::std_specs::hash::spec_keys_iter(&self.voice_channels),
            );
            assert(keys.unref().to_set() == self.voice_channels@.dom());
            assert forall|id: ServerId| #[trigger] ids@.contains(id) implies self@
                .channels.contains_key(id.0) by {
                let i = choose|i: int| 0 <= i < ids@.len() && ids@[i] == id;
                assert(keys.unref()[i] == id.0);
                assert(keys.unref().to_set().contains(id.0));
            }
            assert forall|id: ServerId| self@.channels.contains_key(id.0) implies
                #[trigger] ids@.contains(id) by {
                assert(keys.unref().to_set().contains(id.0));
                let i = choose|i: int| 0 <= i < keys.unref().len() && keys.unref()[i] == id.0;
                assert(ids@[i] == id);
            }
        }
        ids
    }

    /// Tells the voice channel of `server_id` a message, if there is one.
    fn inform_server(&mut self, server_id: ServerId, message: VoiceChannelNotice)
        ensures
            final(self)@ == (ConnectionView {
                channels: informed(old(self)@.channels, Some(server_id), message),
                ..old(self)@
            }),
    {
        match self.voice_channels.entry(server_id.0) {
            Entry::Occupied(entry) => {
                let channel = entry.into_mut();
                let _ = channel.start_send(message);
            },
            Entry::Vacant(_) => {},
        }
        assert(self@.channels =~= informed(old(self)@.channels, Some(server_id), message));
    }

    /// Tells the voice channel of `server_id` a message, or every one if that is `None`.
    fn voice_inform(&mut self, server_id: &Option<ServerId>, message: VoiceChannelNotice)
        ensures
            final(self)@ == (ConnectionView {
                channels: informed(old(self)@.channels, *server_id, message),
                ..old(self)@
            }),
    {
        match server_id {
            Some(id) => {
                self.inform_server(*id, message);
            },
            None => {
                let ids = self.server_ids();
                for i in 0..ids.len()
                    invariant
                        lists_channels(old(self)@.channels, ids@),
                        self@.channels.dom() == old(self)@.channels.dom(),
                        forall|j: int|
                            0 <= j < i ==> self@.channels[(#[trigger] ids@[j]).0]
                                == old(self)@.channels[ids@[j].0].told(message),
                        forall|j: int|
                            i <= j < ids@.len() ==> self@.channels[(#[trigger] ids@[j]).0]
                                == old(self)@.channels[ids@[j].0],
                        self@ == (ConnectionView { channels: self@.channels, ..old(self)@ }),
                {
                    assert(ids@.contains(ids@[i as int]));
                    self.inform_server(ids[i], message.clone());
                }
                assert forall|key: u64| old(self)@.channels.contains_key(key) implies self@
                    .channels[key] == old(self)@.channels[key].told(message) by {
                    assert(ids@.contains(ServerId(key)));
                    let j = choose|j: int| 0 <= j < ids@.len() && ids@[j] == ServerId(key);
                    assert(ids@[j].0 == key);
                }
                assert(self@.channels =~= informed(old(self)@.channels, *server_id, message));
            },
        }
    }

    /// Begins to poll for an event: voice channels are flushed first, one after another. That is
    /// done here because it is incoming events that fill them, and nobody may ever flush the
    /// connection itself.
    pub fn poll(&self) -> (step: PollStep)
        ensures
            step is FlushChannel || step is PollUpstream,
            lists_channels(self@.channels, left_to_flush(step)),
    {
        next_channel(self.server_ids())
    }

    /// Continues `poll` with what flushing a voice channel came to. `rest` are the channels that
    /// are still to be flushed. The first failure ends the poll.
    pub fn channel_flushed(&self, rest: Vec<ServerId>, reply: Poll<(), Error>) -> (step: PollStep)
        ensures
            match reply {
                Ok(_) => {
                    &&& step is FlushChannel || step is PollUpstream
                    &&& left_to_flush(step) == rest@
                },
                Err(e) => step == PollStep::Done(Err(e)),
            },
    {
        match reply {
            Ok(_) => next_channel(rest),
            Err(e) => PollStep::Done(Err(e)),
        }
    }

    /// Continues `poll` with what the gateway connection came up with. Voice channels are told of
    /// an event that concerns them. While there is nothing to read, commands are passed on.
    pub fn upstream_polled(&mut self, result: Poll<Option<Event>, Error>) -> (step: PollStep)
        ensures
            final(self)@ == (match result {
                Ok(Async::Ready(Some(event))) => old(self)@.after_event(event),
                _ => old(self)@,
            }),
            step == after_upstream_poll(result),
            steps_to(old(self)@, final(self)@),
    {
        match &result {
            Ok(Async::Ready(Some(event))) => self.handle_event(event),
            Ok(Async::NotReady) => {
                return PollStep::ProcessCommands;
            },
            _ => {},
        }
        PollStep::Done(result)
    }

    /// Tells voice channels of an event that concerns them.
    fn handle_event(&mut self, event: &Event)
        ensures
            final(self)@ == old(self)@.after_event(*event),
    {
        match event {
            Event::Ready(ready) => {
                let user_id = ready.user.id;
                let same_user = match self.user_id {
                    Some(current) => current == user_id,
                    None => false,
                };
                if !same_user {
                    self.user_id = Some(user_id);
                    self.voice_inform(&None, VoiceChannelNotice::Init { user_id });
                }
                let same_session = match &self.session_id {
                    Some(current) => *current == ready.session_id,
                    None => false,
                };
                if !same_session {
                    self.session_id = Some(ready.session_id.clone());
                    self.voice_inform(
                        &None,
                        VoiceChannelNotice::SessionChange { session_id: ready.session_id.clone() },
                    );
                }
            },
            Event::Resumed { trace: _ } => {
                // A channel that waits for a voice server repeats its request on this, in case
                // the request got lost.
                self.voice_inform(&None, VoiceChannelNotice::Resumed);
            },
            Event::VoiceServerUpdate { server_id, channel_id, endpoint, token } => {
                if server_id.is_some() {
                    self.voice_inform(
                        server_id,
                        VoiceChannelNotice::VoiceServerUpdate {
                            server_id: *server_id,
                            channel_id: *channel_id,
                            endpoint: endpoint.clone(),
                            token: token.clone(),
                        },
                    );
                }
            },
            Event::Other { name: _, data: _ } => {},
        }
    }

    /// Ends a `poll` that found nothing to read, once commands were passed on.
    pub fn commands_processed(&self, processed: Result<(), Error>) -> (step: PollStep)
        ensures
            step == after_poll_commands(processed),
    {
        match processed {
            Ok(_) => PollStep::Done(Ok(Async::NotReady)),
            Err(e) => PollStep::Done(Err(e)),
        }
    }

    /// Begins to pass commands of voice channels on to the gateway connection.
    pub fn process_voice_commands(&mut self) -> (step: CommandStep)
        ensures
            (final(self)@.pending_command, step) == begin_commands(
                old(self)@.command_rx is Some,
                old(self)@.pending_command,
            ),
            final(self)@ == (ConnectionView {
                pending_command: final(self)@.pending_command,
                ..old(self)@
            }),
            steps_to(old(self)@, final(self)@),
    {
        if self.voice_cmd_rx.is_some() && self.pending_voice_cmd.is_none() {
            CommandStep::PollReceiver
        } else {
            self.take_command()
        }
    }

    /// Takes the pending command out, to be sent.
    fn take_command(&mut self) -> (step: CommandStep)
        ensures
            (final(self)@.pending_command, step) == take_command(old(self)@.pending_command),
            final(self)@ == (ConnectionView {
                pending_command: final(self)@.pending_command,
                ..old(self)@
            }),
    {
        match self.pending_voice_cmd.take() {
            Some(cmd) => CommandStep::Send(cmd),
            None => CommandStep::PollComplete,
        }
    }

    /// Continues to pass on commands with what the receiver yields.
    pub fn command_received(&mut self, reply: Async<Value>) -> (step: CommandStep)
        ensures
            (final(self)@.pending_command, step) == receive_command(
                old(self)@.pending_command,
                reply,
            ),
            final(self)@ == (ConnectionView {
                pending_command: final(self)@.pending_command,
                ..old(self)@
            }),
            steps_to(old(self)@, final(self)@),
    {
        if let Async::Ready(cmd) = reply {
            self.pending_voice_cmd = Some(cmd);
        }
        self.take_command()
    }

    /// Continues to pass on commands with the gateway connection's answer to one.
    pub fn command_sent(&mut self, reply: StartSend<Value, Error>) -> (step: CommandStep)
        ensures
            (final(self)@.pending_command, step) == send_command(
                old(self)@.command_rx is Some,
                old(self)@.pending_command,
                reply,
            ),
            final(self)@ == (ConnectionView {
                pending_command: final(self)@.pending_command,
                ..old(self)@
            }),
            steps_to(old(self)@, final(self)@),
    {
        match reply {
            Err(e) => CommandStep::Done(Err(e)),
            Ok(AsyncSink::NotReady(cmd)) => {
                self.pending_voice_cmd = Some(cmd);
                CommandStep::Done(Ok(()))
            },
            Ok(AsyncSink::Ready) => self.process_voice_commands(),
        }
    }

    /// Ends passing on commands with the gateway connection's answer to the flush.
    pub fn commands_flushed(&self, reply: Poll<(), Error>) -> (step: CommandStep)
        ensures
            step == flush_commands(reply),
    {
        match reply {
            Err(e) => CommandStep::Done(Err(e)),
            Ok(_) => CommandStep::Done(Ok(())),
        }
    }

    /// Begins to flush the connection: commands are passed on first.
    pub fn poll_complete(&self) -> (step: UpstreamStep<(), Poll<(), Error>>)
        ensures
            step == UpstreamStep::<(), Poll<(), Error>>::ProcessCommands(()),
    {
        UpstreamStep::ProcessCommands(())
    }

    /// Continues `poll_complete` once commands were passed on: the gateway connection is next,
    /// unless that failed.
    pub fn poll_complete_processed(&self, processed: Result<(), Error>) -> (step: UpstreamStep<
        (),
        Poll<(), Error>,
    >)
        ensures
            step == after_commands::<(), Async<()>>((), processed),
    {
        match processed {
            Ok(_) => UpstreamStep::Upstream(()),
            Err(e) => UpstreamStep::Done(Err(e)),
        }
    }

    /// Begins to send an item: commands are passed on first.
    pub fn start_send(&self, item: Value) -> (step: UpstreamStep<Value, StartSend<Value, Error>>)
        ensures
            step == UpstreamStep::<Value, StartSend<Value, Error>>::ProcessCommands(item),
    {
        UpstreamStep::ProcessCommands(item)
    }

    /// Continues `start_send` once commands were passed on: the item goes to the gateway
    /// connection, unless that failed.
    pub fn start_send_processed(
        &self,
        item: Value,
        processed: Result<(), Error>,
    ) -> (step: UpstreamStep<Value, StartSend<Value, Error>>)
        ensures
            step == after_commands::<Value, AsyncSink<Value>>(item, processed),
    {
        match processed {
            Ok(_) => UpstreamStep::Upstream(item),
            Err(e) => UpstreamStep::Done(Err(e)),
        }
    }

    /// Closes the connection, and cuts off all voice channels at once. A gateway connection that is
    /// up is handed out, for the caller to close.
    pub fn close(&mut self) -> (step: DisconnectStep<Conn>)
        ensures
            final(self)@ == old(self)@.after_close(),
            step == disconnect(old(self)@.upstream),
            steps_to(old(self)@, final(self)@),
    {
        self.voice_cmd_rx = None;
        self.voice_cmd_tx = None;
        self.pending_voice_cmd = None;
        self.voice_channels.clear();
        assert(self@.channels =~= Map::empty());
        self.upstream.close()
    }

    /// Ends a close with the answer of the gateway connection that was closed. Whatever that is,
    /// the connection is closed.
    pub fn disconnected(&self, reply: Poll<(), Error>) -> (result: Poll<(), Error>)
        ensures
            result == Ok::<Async<()>, Error>(Async::Ready(())),
    {
        self.upstream.disconnected(reply)
    }

    /// Makes sure that there is a channel for commands. One that is there already is kept.
    pub fn setup_tx_channel(&mut self)
        ensures
            command_channel_ready(old(self)@, final(self)@),
            steps_to(old(self)@, final(self)@),
    {
        if self.voice_cmd_tx.is_none() {
            let (tx, rx) = command_channel(1);
            self.voice_cmd_rx = Some(rx);
            self.voice_cmd_tx = Some(tx);
        }
    }

    /// Makes a voice channel for `server_id`, in place of the one that it may have had, and hands
    /// out the user's end. The channel is told the user and the session, as far as they are known.
    pub fn voice_handle(&mut self, server_id: ServerId) -> (handle: VoiceControlChannel)
        ensures
            channel_opened(old(self)@, final(self)@, server_id),
            steps_to(old(self)@, final(self)@),
            states_joined(final(self)@.channels[server_id.0].upstream, handle.state_rx),
            state_buffer(final(self)@.channels[server_id.0].upstream) == 1,
            forall|rx: Receiver<Value>| #[trigger]
                commands_joined(handle.mesg_tx, rx) == commands_joined(
                    final(self)@.command_tx->0,
                    rx,
                ),
            command_buffer(handle.mesg_tx) == command_buffer(final(self)@.command_tx->0),
    {
        self.setup_tx_channel();
        let mesg_tx = match &self.voice_cmd_tx {
            Some(tx) => clone_sender(tx),
            None => vstd::pervasive::unreached(),
        };
        let (mut sink, handle) = new_handle(server_id, mesg_tx);
        if let Some(user_id) = self.user_id {
            let _ = sink.start_send(VoiceChannelNotice::Init { user_id });
            if let Some(session_id) = &self.session_id {
                let _ = sink.start_send(
                    VoiceChannelNotice::SessionChange { session_id: session_id.clone() },
                );
            }
        }
        self.voice_channels.insert(server_id.0, sink);
        assert(self@.channels =~= old(self)@.channels.insert(server_id.0, channel_view(sink)));
        handle
    }

    /// The reconnector of the gateway connection.
    pub fn upstream_mut(&mut self) -> (upstream: &mut Reconnector<Attempt, Conn>)
        ensures
            upstream@ == old(self)@.upstream,
            final(self)@ == (ConnectionView { upstream: final(upstream)@, ..old(self)@ }),
            steps_to(old(self)@, final(self)@),
    {
        &mut self.upstream
    }

    /// Where commands of voice channels come in, for the caller to poll.
    pub fn command_receiver_mut(&mut self) -> (rx: Option<&mut Receiver<Value>>)
        ensures
            match old(self)@.command_rx {
                Some(current) => {
                    &&& rx matches Some(r)
                    &&& *r == current
                    &&& final(self)@ == (ConnectionView {
                        command_rx: Some(*final(r)),
                        ..old(self)@
                    })
                    &&& same_channel(current, *final(r)) ==> steps_to(old(self)@, final(self)@)
                },
                None => rx is None && final(self)@ == old(self)@,
            },
    {
        match &mut self.voice_cmd_rx {
            Some(rx) => Some(rx),
            None => None,
        }
    }

    /// The voice channel of `server_id`, for the caller to flush.
    pub fn voice_channel_mut(&mut self, server_id: ServerId) -> (channel: Option<&mut VoiceSink>)
        ensures
            match channel {
                Some(c) => {
                    &&& old(self)@.channels.contains_key(server_id.0)
                    &&& channel_view(*c) == old(self)@.channels[server_id.0]
                    &&& final(self)@.channels =~= old(self)@.channels.insert(
                        server_id.0,
                        channel_view(*final(c)),
                    )
                    &&& flushes(channel_view(*c), channel_view(*final(c))) ==> {
                        &&& channel_flushing(old(self)@, final(self)@, server_id.0)
                        &&& steps_to(old(self)@, final(self)@)
                    }
                },
                None => {
                    &&& !old(self)@.channels.contains_key(server_id.0)
                    &&& final(self)@.channels =~= old(self)@.channels
                },
            },
            final(self)@ == (ConnectionView { channels: final(self)@.channels, ..old(self)@ }),
    {
        match self.voice_channels.entry(server_id.0) {
            Entry::Occupied(entry) => Some(entry.into_mut()),
            Entry::Vacant(_) => None,
        }
    }
}

/// Takes the next channel to flush off the list.
fn next_channel(ids: Vec<ServerId>) -> (step: PollStep)
    ensures
        step is FlushChannel || step is PollUpstream,
        left_to_flush(step) == ids@,
{
    let mut rest = ids;
    match rest.pop() {
        Some(server_id) => {
            assert(rest@.push(server_id) =~= ids@);
            PollStep::FlushChannel { server_id, rest }
        },
        None => PollStep::PollUpstream,
    }
}

} // verus!
