//! What holds of connections as a whole.

use futures::sync::mpsc::{Receiver, Sender};
use serde_json::Value;
use vstd::prelude::*;

use crate::channel::{command_buffer, commands_joined, states_joined};
use crate::connection::{
    after_commands, after_poll_commands, after_upstream_poll, channel_flushing, channel_opened,
    channel_view, command_channel_ready, flushes, left_to_flush, lists_channels,
    same_state_channel, steps_to, ChannelView, ConnectionView, PollStep, UpstreamStep,
};
use crate::error::{closed_error, Error};
use crate::model::{Event, ReadyEvent, ServerId, UserId};
use crate::poll::{Async, AsyncSink, Poll, StartSend};
use crate::reconnector::{begin, disconnect, DisconnectStep};
use crate::state_update_sink::{pending_after_act, SinkAct};
use crate::voice_commands::{run_commands, CommandReply, CommandStep};
use crate::voice_internal::{VoiceChannelState, VoiceSink};

verus! {

impl ChannelView {
    /// Whether the channel of `server_id` knows this user and session, and whether what waits to be
    /// sent, if anything, is all that it knows.
    pub open spec fn agrees(
        self,
        server_id: ServerId,
        user_id: Option<UserId>,
        session_id: Option<Seq<char>>,
    ) -> bool {
        &&& self.state.server_id == server_id
        &&& self.state.user_id == user_id
        &&& self.state.session_id == session_id
        &&& self.pending matches Some(state) ==> state == self.state
    }
}

impl<Attempt, Conn> ConnectionView<Attempt, Conn> {
    /// Whether the parts of the connection agree with one another: the user and the session are
    /// known both or neither, commands that are sent arrive, and every voice channel knows the same
    /// user and session as the connection.
    pub open spec fn coherent(self) -> bool {
        &&& self.user_id is Some <==> self.session_id is Some
        &&& self.command_tx is Some <==> self.command_rx is Some
        &&& self.command_tx matches Some(tx) ==> {
            &&& commands_joined(tx, self.command_rx->0)
            &&& command_buffer(tx) == 1
        }
        &&& forall|key: u64| #[trigger]
            self.channels.contains_key(key) ==> self.channels[key].agrees(
                ServerId(key),
                self.user_id,
                self.session_id,
            )
    }
}

/// A connection that has just been made is coherent.
pub proof fn law_fresh_connection_is_coherent<Attempt, Conn>(attempt: Attempt)
    ensures
        ConnectionView::<Attempt, Conn>::fresh(attempt).coherent(),
{
}

/// Whatever event is received, the voice channels know the same user and session as the connection
/// afterwards if they did before.
pub proof fn law_events_keep_channels_up_to_date<Attempt, Conn>(
    conn: ConnectionView<Attempt, Conn>,
    event: Event,
)
    requires
        conn.coherent(),
    ensures
        conn.after_event(event).coherent(),
{
    match event {
        Event::Ready(ready) => {
            let named = conn.with_user(ready.user.id);
            assert(forall|key: u64| #[trigger]
                named.channels.contains_key(key) ==> conn.channels.contains_key(key));
            let done = named.with_session(ready.session_id);
            assert(forall|key: u64| #[trigger]
                done.channels.contains_key(key) ==> named.channels.contains_key(key));
        },
        _ => {
            let done = conn.after_event(event);
            assert(forall|key: u64| #[trigger]
                done.channels.contains_key(key) ==> conn.channels.contains_key(key));
        },
    }
}

/// A voice channel that is opened knows the same user and session as the connection, and as all
/// channels that were opened before it.
pub proof fn law_new_channels_are_up_to_date<Attempt, Conn>(
    before: ConnectionView<Attempt, Conn>,
    after: ConnectionView<Attempt, Conn>,
    server_id: ServerId,
)
    requires
        before.coherent(),
        channel_opened(before, after, server_id),
    ensures
        after.coherent(),
        after.channels.contains_key(server_id.0),
        after.channels[server_id.0].agrees(server_id, before.user_id, before.session_id),
{
    assert(forall|key: u64| #[trigger]
        after.channels.contains_key(key) && key != server_id.0 ==> before.channels.contains_key(key));
}

/// What the user of a voice channel sends as commands arrives where the connection looks for them,
/// however many channels were opened before.
pub proof fn law_commands_of_handles_arrive<Attempt, Conn>(
    before: ConnectionView<Attempt, Conn>,
    after: ConnectionView<Attempt, Conn>,
    server_id: ServerId,
    mesg_tx: Sender<Value>,
)
    requires
        before.coherent(),
        channel_opened(before, after, server_id),
        forall|rx: Receiver<Value>| #[trigger]
            commands_joined(mesg_tx, rx) == commands_joined(after.command_tx->0, rx),
    ensures
        after.command_rx matches Some(rx) && commands_joined(mesg_tx, rx),
{
    law_new_channels_are_up_to_date(before, after, server_id);
}

/// Closing a connection leaves it coherent.
pub proof fn law_closed_connection_is_coherent<Attempt, Conn>(conn: ConnectionView<Attempt, Conn>)
    requires
        conn.coherent(),
    ensures
        conn.after_close().coherent(),
{
}

/// Flushing the sink of a voice channel, with whatever answer of the state channel, flushes the
/// voice channel: it leaves what the channel knows alone, nothing waits afterwards that did not wait
/// before, and the sink stays at the end of the same state channel.
pub proof fn law_flushing_a_sink_flushes_its_channel(
    before: VoiceSink,
    after: VoiceSink,
    reply: StartSend<VoiceChannelState, Error>,
)
    requires
        after.transform() == before.transform(),
        after.pending() == pending_after_act(before.pending(), SinkAct::Flush(reply)),
        reply matches Ok(AsyncSink::NotReady(back)) ==> (before.pending() matches Some(offered)
            ==> back == offered),
        same_state_channel(before.upstream(), after.upstream()),
    ensures
        flushes(channel_view(before), channel_view(after)),
{
}

/// The channel for commands is set up once: doing it again changes nothing, so commands that are
/// already queued stay where they are.
pub proof fn law_command_channel_is_set_up_once<Attempt, Conn>(
    before: ConnectionView<Attempt, Conn>,
    once: ConnectionView<Attempt, Conn>,
    twice: ConnectionView<Attempt, Conn>,
)
    requires
        command_channel_ready(before, once),
        command_channel_ready(once, twice),
    ensures
        twice == once,
        once.command_tx is Some,
        before.command_tx is Some ==> once == before,
        before.command_tx is None ==> {
            &&& once.command_rx is Some
            &&& commands_joined(once.command_tx->0, once.command_rx->0)
            &&& command_buffer(once.command_tx->0) == 1
        },
{
}

/// Closing a connection twice is the same as closing it once: the second time there is nothing left
/// to close, and the close is through at once.
pub proof fn law_closing_twice_is_closing_once<Attempt, Conn>(conn: ConnectionView<Attempt, Conn>)
    ensures
        conn.after_close().after_close() == conn.after_close(),
        disconnect(conn.after_close().upstream) == DisconnectStep::<Conn>::Done(
            Ok(Async::Ready(())),
        ),
{
}

/// However a connection got to where it is, its parts agree with one another: every voice channel
/// knows the user and the session that the connection knows, and commands arrive.
pub proof fn law_connections_are_always_coherent<Attempt, Conn>(
    attempt: Attempt,
    states: Seq<ConnectionView<Attempt, Conn>>,
)
    requires
        states.len() > 0,
        states[0] == ConnectionView::<Attempt, Conn>::fresh(attempt),
        forall|k: int| 0 < k < states.len() ==> steps_to(states[k - 1], #[trigger] states[k]),
    ensures
        states.last().coherent(),
    decreases states.len(),
{
    let n = states.len() - 1;
    if n == 0 {
        law_fresh_connection_is_coherent::<Attempt, Conn>(attempt);
    } else {
        let earlier = states.drop_last();
        assert forall|k: int| 0 < k < earlier.len() implies steps_to(
            earlier[k - 1],
            #[trigger] earlier[k],
        ) by {
            assert(steps_to(states[k - 1], states[k]));
        }
        law_connections_are_always_coherent(attempt, earlier);
        let before = earlier.last();
        let after = states[n];
        assert(before == states[n - 1]);
        assert(steps_to(before, after));
        if exists|event: Event| after == #[trigger] before.after_event(event) {
            let event = choose|event: Event| after == #[trigger] before.after_event(event);
            law_events_keep_channels_up_to_date(before, event);
        } else if exists|server_id: ServerId| #[trigger] channel_opened(before, after, server_id) {
            let server_id = choose|server_id: ServerId| #[trigger]
                channel_opened(before, after, server_id);
            law_new_channels_are_up_to_date(before, after, server_id);
        } else if exists|key: u64| #[trigger] channel_flushing(before, after, key) {
            assert(forall|key: u64| #[trigger]
                after.channels.contains_key(key) ==> before.channels.contains_key(key));
        }
    }
}

/// The states of a voice channel keep arriving at the handle that was made with it: as long as the
/// connection holds the channel and no other is opened for the same server, its end is joined to
/// the same receivers as at first.
pub proof fn law_channels_stay_joined_to_their_handles<Attempt, Conn>(
    states: Seq<ConnectionView<Attempt, Conn>>,
    key: u64,
    rx: Receiver<VoiceChannelState>,
)
    requires
        states.len() > 0,
        forall|k: int| 0 <= k < states.len() ==> (#[trigger] states[k]).channels.contains_key(key),
        forall|k: int|
            0 < k < states.len() ==> {
                &&& steps_to(states[k - 1], #[trigger] states[k])
                &&& !channel_opened(states[k - 1], states[k], ServerId(key))
            },
    ensures
        states_joined(states.last().channels[key].upstream, rx) == states_joined(
            states[0].channels[key].upstream,
            rx,
        ),
    decreases states.len(),
{
    let n = states.len() - 1;
    if n > 0 {
        let earlier = states.drop_last();
        assert forall|k: int| 0 < k < earlier.len() implies steps_to(
            earlier[k - 1],
            #[trigger] earlier[k],
        ) && !channel_opened(earlier[k - 1], earlier[k], ServerId(key)) by {
            assert(steps_to(states[k - 1], states[k]));
        }
        assert forall|k: int| 0 <= k < earlier.len() implies (
        #[trigger] earlier[k]).channels.contains_key(key) by {
            assert(states[k].channels.contains_key(key));
        }
        law_channels_stay_joined_to_their_handles(earlier, key, rx);
        let before = states[n - 1];
        let after = states[n];
        assert(steps_to(before, after));
        assert(before.channels.contains_key(key) && after.channels.contains_key(key));
        if exists|event: Event| after == #[trigger] before.after_event(event) {
            let event = choose|event: Event| after == #[trigger] before.after_event(event);
            assert(after.channels[key].upstream == before.channels[key].upstream);
        } else if exists|server_id: ServerId| #[trigger] channel_opened(before, after, server_id) {
            let server_id = choose|server_id: ServerId| #[trigger]
                channel_opened(before, after, server_id);
            assert(server_id != ServerId(key));
            assert(after.channels[key] == before.channels[key]);
        } else if exists|flushed: u64| #[trigger] channel_flushing(before, after, flushed) {
            let flushed = choose|flushed: u64| #[trigger] channel_flushing(before, after, flushed);
            if flushed == key {
                assert(same_state_channel(
                    before.channels[key].upstream,
                    after.channels[key].upstream,
                ));
            } else {
                assert(after.channels[key] == before.channels[key]);
            }
        }
    }
}

/// Once a session has started, the connection and all its voice channels know the user and the
/// session; and if the session is a new one, the channels have forgotten the voice server and the
/// voice channel of the one before, and have that to tell.
pub proof fn law_ready_reaches_every_channel<Attempt, Conn>(
    conn: ConnectionView<Attempt, Conn>,
    ready: ReadyEvent,
    key: u64,
)
    requires
        conn.coherent(),
        conn.channels.contains_key(key),
    ensures
        ({
            let after = conn.after_event(Event::Ready(ready));
            &&& after.user_id == Some(ready.user.id)
            &&& after.session_id == Some(ready.session_id@)
            &&& after.channels.contains_key(key)
            &&& after.channels[key].agrees(
                ServerId(key),
                Some(ready.user.id),
                Some(ready.session_id@),
            )
            &&& conn.session_id != Some(ready.session_id@) ==> {
                &&& after.channels[key].state.endpoint is None
                &&& after.channels[key].state.voice_token is None
                &&& after.channels[key].state.current_channel is None
                &&& after.channels[key].pending == Some(after.channels[key].state)
            }
        }),
{
    law_events_keep_channels_up_to_date(conn, Event::Ready(ready));
}

/// The start of a session that is announced twice is news only once: the second time nothing
/// changes, and no voice channel is told anything.
pub proof fn law_ready_is_told_once<Attempt, Conn>(
    conn: ConnectionView<Attempt, Conn>,
    ready: ReadyEvent,
)
    ensures
        conn.after_event(Event::Ready(ready)).after_event(Event::Ready(ready)) == conn.after_event(
            Event::Ready(ready),
        ),
{
}

/// The assignment of a voice server is told to the voice channel of its own server and to no
/// other; without such a channel, or without a server, to none.
pub proof fn law_server_updates_stay_with_their_server<Attempt, Conn>(
    conn: ConnectionView<Attempt, Conn>,
    event: Event,
    key: u64,
)
    requires
        event is VoiceServerUpdate,
        event->server_id != Some(ServerId(key)),
    ensures
        ({
            let after = conn.after_event(event);
            &&& after.channels.contains_key(key) == conn.channels.contains_key(key)
            &&& conn.channels.contains_key(key) ==> after.channels[key] == conn.channels[key]
        }),
{
}

/// After an interrupted session goes on, every voice channel has its state to tell again, unchanged.
pub proof fn law_resumed_has_every_channel_tell_its_state<Attempt, Conn>(
    conn: ConnectionView<Attempt, Conn>,
    trace: Vec<Option<String>>,
    key: u64,
)
    requires
        conn.channels.contains_key(key),
    ensures
        ({
            let after = conn.after_event(Event::Resumed { trace });
            &&& after.channels.contains_key(key)
            &&& after.channels[key].state == conn.channels[key].state
            &&& after.channels[key].pending == Some(conn.channels[key].state)
        }),
{
}

/// The servers whose voice channels are flushed when `ids` are left to flush and no flush fails, in
/// order.
pub open spec fn flush_order(ids: Seq<ServerId>) -> Seq<ServerId>
    decreases ids.len(),
{
    if ids.len() == 0 {
        seq![]
    } else {
        seq![ids.last()] + flush_order(ids.drop_last())
    }
}

/// Polling a connection flushes every voice channel, and each only once, before it gets to the
/// gateway connection, unless a flush fails.
pub proof fn law_every_channel_is_flushed_once<Attempt, Conn>(
    conn: ConnectionView<Attempt, Conn>,
    step: PollStep,
)
    requires
        lists_channels(conn.channels, left_to_flush(step)),
    ensures
        lists_channels(conn.channels, flush_order(left_to_flush(step))),
{
    let ids = left_to_flush(step);
    lemma_flush_order(ids);
    let order = flush_order(ids);
    assert forall|id: ServerId| #[trigger] order.contains(id) <==> ids.contains(id) by {
        if order.contains(id) {
            let i = choose|i: int| 0 <= i < order.len() && order[i] == id;
            assert(ids[ids.len() - 1 - i] == id);
        }
        if ids.contains(id) {
            let i = choose|i: int| 0 <= i < ids.len() && ids[i] == id;
            assert(order[ids.len() - 1 - i] == id);
        }
    }
}

/// Channels are flushed from the end of the list to its front.
proof fn lemma_flush_order(ids: Seq<ServerId>)
    ensures
        flush_order(ids).len() == ids.len(),
        forall|i: int|
            0 <= i < ids.len() ==> #[trigger] flush_order(ids)[i] == ids[ids.len() - 1 - i],
    decreases ids.len(),
{
    if ids.len() > 0 {
        lemma_flush_order(ids.drop_last());
    }
}

/// A closed connection has no voice channels, and fails whatever is asked of it: polling, flushing
/// and sending all come to the same error, and the gateway connection is never set up again.
pub proof fn law_closed_connection_fails<Attempt, Conn>(
    conn: ConnectionView<Attempt, Conn>,
    item: Value,
)
    ensures
        ({
            let closed = conn.after_close();
            let polled = begin(
                closed.upstream,
                (),
                Ok::<Async<Option<Event>>, Error>(Async::NotReady),
            );
            let flushed = begin(closed.upstream, (), Err::<Async<()>, Error>(closed_error()));
            let processed = run_commands(
                closed.command_rx is Some,
                closed.pending_command,
                seq![CommandReply::Flushed(flushed->Done_0)],
            );
            &&& closed.channels.is_empty()
            &&& polled is Done
            &&& after_upstream_poll(polled->Done_0) == PollStep::ProcessCommands
            &&& flushed is Done
            &&& processed.step == CommandStep::Done(Err(closed_error()))
            &&& after_poll_commands(Err(closed_error())) == PollStep::Done(Err(closed_error()))
            &&& after_commands::<(), Async<()>>((), Err(closed_error())) == UpstreamStep::<
                (),
                Poll<(), Error>,
            >::Done(Err(closed_error()))
            &&& after_commands::<Value, AsyncSink<Value>>(item, Err(closed_error()))
                == UpstreamStep::<Value, StartSend<Value, Error>>::Done(Err(closed_error()))
        }),
{
    reveal_with_fuel(run_commands, 2);
}

} // verus!
