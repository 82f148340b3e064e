//! The voice side of a connection: what is told to voice channels and what they are told.

use futures::sync::mpsc::{Receiver, Sender};
use serde_json::Value;
use vstd::prelude::*;

use crate::channel::{state_buffer, state_channel, states_joined};
use crate::error::{detached_error, Error};
use crate::model::{text, ChannelId, ServerId, UserId};
use crate::state_update_sink::{StateUpdateSink, Transform};

pub mod public;

verus! {

/// Events received over a voice channel
#[derive(Debug)]
pub enum VoiceEvent {
    SpeakingUpdate(SpeakingUpdate),
    VoicePacket(VoicePacket),
    Disconnected,
}

/// Sent when a user's currently-speaking state has updated.
///
/// This event is the only way to know the `ssrc` to `user_id` mapping, but is unreliable and
/// only a hint for when users are actually speaking, due both to latency differences and that
/// it is possible for a user to leave `speaking` true even when they are not sending audio.
#[derive(Debug)]
pub struct SpeakingUpdate {
    pub ssrc: u32,
    pub user_id: UserId,
    pub speaking: bool,
}

/// Sent when a voice packet is received.
///
/// The sequence number increases by one per packet sent, and can be used to reorder packets
/// if they have been received out of order. The timestamp increases at 48000Hz (typically by
/// 960 per 20ms frame). If `stereo` is true, the length of the `data` slice is doubled and
/// samples have been interleaved. The typical length of `data` is 960 or 1920 for a 20ms frame,
/// but may be larger or smaller in some situations.
#[derive(Debug)]
pub struct VoicePacket {
    pub ssrc: u32,
    pub sequence: u16,
    pub timestamp: u32,
    pub stereo: bool,
    pub data: Vec<u16>,
}

/// Events sent _to_ a voice channel.
#[derive(Debug)]
pub enum VoiceMessage {
    /// A voice frame with audio data
    VoiceFrame(VoiceFrame),
    /// A frame of silence. This will keep the channel open.
    SilenceFrame,
    /// Sets whether this connection is muted. This is a cosmetic indication; you must also ensure
    /// that you are sending silence frames in the meantime.
    SetMute(bool),
    /// Sets whether this connection is deafened.
    SetDeaf(bool),
    /// Send to request a graceful shutdown of the voice connection
    Disconnect,
    /// Send to request a channel change
    ChangeChannel(ChannelId),
}

#[derive(Debug)]
#[allow(dead_code)]
pub struct VoiceFrame {
    /// Indicates whether the stream is stereo or not. Changing this value between frames results
    /// in expensive reinitialization of the audio codec and should be avoided.
    is_stereo: bool,
    buffer: Vec<u16>,
}

/// What a voice channel knows of the connection that it belongs to.
#[derive(Debug)]
pub struct VoiceChannelState {
    pub server_id: ServerId,
    pub endpoint: Option<String>,
    pub user_id: Option<UserId>,
    pub session_id: Option<String>,
    pub voice_token: Option<String>,
    pub current_channel: Option<ChannelId>,
}

/// The value of a `VoiceChannelState`, with its strings as text.
pub struct VoiceStateView {
    pub server_id: ServerId,
    pub endpoint: Option<Seq<char>>,
    pub user_id: Option<UserId>,
    pub session_id: Option<Seq<char>>,
    pub voice_token: Option<Seq<char>>,
    pub current_channel: Option<ChannelId>,
}

impl View for VoiceChannelState {
    type V = VoiceStateView;

    open spec fn view(&self) -> VoiceStateView {
        VoiceStateView {
            server_id: self.server_id,
            endpoint: text(self.endpoint),
            user_id: self.user_id,
            session_id: text(self.session_id),
            voice_token: text(self.voice_token),
            current_channel: self.current_channel,
        }
    }
}

impl Clone for VoiceChannelState {
    fn clone(&self) -> (copy: Self)
        ensures
            copy@ == self@,
    {
        VoiceChannelState {
            server_id: self.server_id,
            endpoint: self.endpoint.clone(),
            user_id: self.user_id,
            session_id: self.session_id.clone(),
            voice_token: self.voice_token.clone(),
            current_channel: self.current_channel,
        }
    }
}

/// The user's end of a voice channel.
#[derive(Debug)]
pub struct VoiceControlChannel {
    /// Delivers the state of the channel whenever it changes.
    pub state_rx: Receiver<VoiceChannelState>,
    /// Takes commands for the gateway connection.
    pub mesg_tx: Sender<Value>,
}

/// A voice connection that is up.
#[derive(Debug)]
pub struct VoiceChannel {}

/// What the gateway connection tells voice channels.
#[derive(Debug)]
pub enum VoiceChannelNotice {
    /// A voice server was assigned.
    VoiceServerUpdate {
        server_id: Option<ServerId>,
        channel_id: Option<ChannelId>,
        endpoint: Option<String>,
        token: String,
    },
    /// A new gateway session started.
    SessionChange { session_id: String },
    /// The user that the connection is logged in as became known.
    Init { user_id: UserId },
    /// An interrupted gateway session goes on.
    Resumed,
}

impl Clone for VoiceChannelNotice {
    fn clone(&self) -> (copy: Self)
        ensures
            copy == *self,
    {
        match self {
            VoiceChannelNotice::VoiceServerUpdate { server_id, channel_id, endpoint, token } => {
                VoiceChannelNotice::VoiceServerUpdate {
                    server_id: *server_id,
                    channel_id: *channel_id,
                    endpoint: endpoint.clone(),
                    token: token.clone(),
                }
            },
            VoiceChannelNotice::SessionChange { session_id } => {
                VoiceChannelNotice::SessionChange { session_id: session_id.clone() }
            },
            VoiceChannelNotice::Init { user_id } => VoiceChannelNotice::Init { user_id: *user_id },
            VoiceChannelNotice::Resumed => VoiceChannelNotice::Resumed,
        }
    }
}

impl VoiceStateView {
    /// What a channel for `server_id` knows before it is told anything.
    pub open spec fn initial(server_id: ServerId) -> VoiceStateView {
        VoiceStateView {
            server_id,
            endpoint: None,
            user_id: None,
            session_id: None,
            voice_token: None,
            current_channel: None,
        }
    }

    /// What a channel knows once it has been told who the user is.
    pub open spec fn with_user(self, user_id: UserId) -> VoiceStateView {
        VoiceStateView { user_id: Some(user_id), ..self }
    }

    /// What a channel knows once it has been told of a new session. All that belonged to the
    /// session before is forgotten.
    pub open spec fn with_session(self, session_id: Seq<char>) -> VoiceStateView {
        VoiceStateView {
            current_channel: None,
            endpoint: None,
            voice_token: None,
            session_id: Some(session_id),
            ..self
        }
    }

    /// What a channel knows once it has been told `notice`.
    pub open spec fn after(self, notice: VoiceChannelNotice) -> VoiceStateView {
        match notice {
            VoiceChannelNotice::VoiceServerUpdate { server_id: _, channel_id, endpoint, token } => {
                VoiceStateView {
                    current_channel: if channel_id is Some {
                        channel_id
                    } else {
                        self.current_channel
                    },
                    endpoint: text(endpoint),
                    voice_token: Some(token@),
                    ..self
                }
            },
            VoiceChannelNotice::SessionChange { session_id } => self.with_session(session_id@),
            VoiceChannelNotice::Init { user_id } => self.with_user(user_id),
            VoiceChannelNotice::Resumed => self,
        }
    }
}

/// Folds notices into the state of one voice channel.
#[derive(Debug)]
pub struct VoiceStateFold {
    pub state: VoiceChannelState,
}

impl Transform<VoiceChannelNotice, VoiceChannelState, Error> for VoiceStateFold {
    open spec fn applied(
        before: Self,
        item: VoiceChannelNotice,
        after: Self,
        result: Result<VoiceChannelState, Error>,
    ) -> bool {
        &&& after.state@ == before.state@.after(item)
        &&& result matches Ok(state)
        &&& state@ == after.state@
    }

    fn apply(&mut self, item: VoiceChannelNotice) -> (result: Result<VoiceChannelState, Error>) {
        match item {
            VoiceChannelNotice::VoiceServerUpdate { server_id: _, channel_id, endpoint, token } => {
                if channel_id.is_some() {
                    self.state.current_channel = channel_id;
                }
                self.state.endpoint = endpoint;
                self.state.voice_token = Some(token);
            },
            VoiceChannelNotice::SessionChange { session_id } => {
                // The session was reset, so the voice connection has to be set up anew.
                self.state.current_channel = None;
                self.state.endpoint = None;
                self.state.voice_token = None;
                self.state.session_id = Some(session_id);
            },
            VoiceChannelNotice::Init { user_id } => {
                self.state.user_id = Some(user_id);
            },
            VoiceChannelNotice::Resumed => {
                // Nothing changes, but the poke has outbound requests sent again.
            },
        }
        Ok(self.state.clone())
    }
}

/// The connection's end of a voice channel.
pub type VoiceSink = StateUpdateSink<
    VoiceChannelState,
    VoiceChannelNotice,
    Error,
    VoiceStateFold,
    Sender<VoiceChannelState>,
>;

/// Makes the two ends of a voice channel for `server_id`: the one that the connection tells
/// notices, and the one that the user reads states from and sends commands with.
pub fn new_handle(server_id: ServerId, mesg_tx: Sender<Value>) -> (ends: (
    VoiceSink,
    VoiceControlChannel,
))
    ensures
        ends.0.transform().state@ == VoiceStateView::initial(server_id),
        ends.0.pending() is None,
        states_joined(ends.0.upstream(), ends.1.state_rx),
        state_buffer(ends.0.upstream()) == 1,
        ends.1.mesg_tx == mesg_tx,
{
    let (state_tx, state_rx) = state_channel(1);
    let state = VoiceChannelState {
        server_id,
        endpoint: None,
        user_id: None,
        session_id: None,
        voice_token: None,
        current_channel: None,
    };
    let channel_tell = StateUpdateSink::new(state_tx, VoiceStateFold { state });
    let voice_ctl = VoiceControlChannel { state_rx, mesg_tx };
    (channel_tell, voice_ctl)
}

/// What the state channel of a voice channel answered, with its error turned into one of the
/// library: it can only mean that the user's end is gone.
pub fn map_channel_error<T, G>(reply: Result<T, G>) -> (mapped: Result<T, Error>)
    ensures
        mapped == (match reply {
            Ok(value) => Ok::<T, Error>(value),
            Err(_) => Err(detached_error()),
        }),
{
    match reply {
        Ok(value) => Ok(value),
        Err(_) => Err(Error::Other("Detached from discord connection")),
    }
}

/// What a channel for `server_id` knows once it has been told `notices`, in that order.
pub open spec fn told(server_id: ServerId, notices: Seq<VoiceChannelNotice>) -> VoiceStateView
    decreases notices.len(),
{
    if notices.len() == 0 {
        VoiceStateView::initial(server_id)
    } else {
        told(server_id, notices.drop_last()).after(notices.last())
    }
}

/// The fold of a channel that is told notices one after another holds, and passes on, what was told
/// so far. `folds` is the fold before the first notice and after each, `states` what it returned.
pub proof fn law_fold_holds_what_was_told(
    server_id: ServerId,
    folds: Seq<VoiceStateFold>,
    notices: Seq<VoiceChannelNotice>,
    states: Seq<VoiceChannelState>,
)
    requires
        folds.len() == notices.len() + 1,
        states.len() == notices.len(),
        folds[0].state@ == VoiceStateView::initial(server_id),
        forall|k: int|
            0 <= k < notices.len() ==> VoiceStateFold::applied(
                folds[k],
                #[trigger] notices[k],
                folds[k + 1],
                Ok(states[k]),
            ),
    ensures
        folds.last().state@ == told(server_id, notices),
        notices.len() > 0 ==> states.last()@ == told(server_id, notices),
    decreases notices.len(),
{
    if notices.len() > 0 {
        let n = notices.len() - 1;
        let before = notices.drop_last();
        assert forall|k: int| 0 <= k < before.len() implies VoiceStateFold::applied(
            folds.drop_last()[k],
            #[trigger] before[k],
            folds.drop_last()[k + 1],
            Ok(states.drop_last()[k]),
        ) by {
            assert(before[k] == notices[k]);
        }
        law_fold_holds_what_was_told(server_id, folds.drop_last(), before, states.drop_last());
        assert(VoiceStateFold::applied(folds[n], notices[n], folds[n + 1], Ok(states[n])));
        assert(folds.drop_last().last() == folds[n]);
    }
}

/// A kind of notice.
pub enum NoticeKind {
    /// Says who the user is.
    NamesUser,
    /// Starts a new session.
    StartsSession,
    /// Assigns a voice server.
    AssignsServer,
    /// Assigns a voice server and names the voice channel that the user is in.
    NamesChannel,
}

impl NoticeKind {
    /// Whether `notice` is of this kind.
    pub open spec fn has(self, notice: VoiceChannelNotice) -> bool {
        match self {
            NoticeKind::NamesUser => notice is Init,
            NoticeKind::StartsSession => notice is SessionChange,
            NoticeKind::AssignsServer => notice is VoiceServerUpdate,
            NoticeKind::NamesChannel => notice is VoiceServerUpdate && notice->channel_id is Some,
        }
    }

    /// Whether none of `notices` from position `from` on is of this kind.
    pub open spec fn none_from(self, notices: Seq<VoiceChannelNotice>, from: int) -> bool {
        forall|j: int| from <= j < notices.len() ==> !self.has(#[trigger] notices[j])
    }

    /// Whether the last of `notices` that is of this kind stands at position `k`.
    pub open spec fn last_at(self, notices: Seq<VoiceChannelNotice>, k: int) -> bool {
        &&& 0 <= k < notices.len()
        &&& self.has(notices[k])
        &&& self.none_from(notices, k + 1)
    }
}

/// What holds of a list of notices holds of it without its last one.
proof fn lemma_without_last(kind: NoticeKind, notices: Seq<VoiceChannelNotice>, from: int)
    requires
        notices.len() > 0,
        from >= 0,
    ensures
        kind.none_from(notices, from) ==> kind.none_from(notices.drop_last(), from),
        kind.none_from(notices, from) && from < notices.len() ==> !kind.has(notices.last()),
        from < notices.len() - 1 && kind.last_at(notices, from) ==> {
            &&& kind.last_at(notices.drop_last(), from)
            &&& !kind.has(notices.last())
        },
{
    let before = notices.drop_last();
    assert(forall|j: int| 0 <= j < before.len() ==> before[j] == notices[j]);
    assert(notices.last() == notices[notices.len() - 1]);
    if kind.none_from(notices, from) {
        assert forall|j: int| from <= j < before.len() implies !kind.has(#[trigger] before[j]) by {
            assert(!kind.has(notices[j]));
        }
    }
    if from < notices.len() - 1 && kind.last_at(notices, from) {
        assert forall|j: int| from + 1 <= j < before.len() implies !kind.has(
            #[trigger] before[j],
        ) by {
            assert(!kind.has(notices[j]));
        }
    }
}

/// A channel stays with the server that it was made for, whatever it is told.
pub proof fn law_server_never_changes(server_id: ServerId, notices: Seq<VoiceChannelNotice>)
    ensures
        told(server_id, notices).server_id == server_id,
    decreases notices.len(),
{
    if notices.len() > 0 {
        law_server_never_changes(server_id, notices.drop_last());
    }
}

/// A channel knows the user that it was told last, and none before it was told one.
pub proof fn law_user_is_the_last_named(
    server_id: ServerId,
    notices: Seq<VoiceChannelNotice>,
    k: int,
)
    ensures
        NoticeKind::NamesUser.none_from(notices, 0) ==> told(server_id, notices).user_id is None,
        NoticeKind::NamesUser.last_at(notices, k) ==> told(server_id, notices).user_id == Some(
            notices[k]->user_id,
        ),
    decreases notices.len(),
{
    if notices.len() > 0 {
        law_user_is_the_last_named(server_id, notices.drop_last(), k);
        lemma_without_last(NoticeKind::NamesUser, notices, 0);
        if k >= 0 {
            lemma_without_last(NoticeKind::NamesUser, notices, k);
        }
    }
}

/// A channel knows the session that it was told last, and none before it was told one.
pub proof fn law_session_is_the_last_started(
    server_id: ServerId,
    notices: Seq<VoiceChannelNotice>,
    k: int,
)
    ensures
        NoticeKind::StartsSession.none_from(notices, 0) ==> told(
            server_id,
            notices,
        ).session_id is None,
        NoticeKind::StartsSession.last_at(notices, k) ==> told(server_id, notices).session_id
            == Some(notices[k]->session_id@),
    decreases notices.len(),
{
    if notices.len() > 0 {
        law_session_is_the_last_started(server_id, notices.drop_last(), k);
        lemma_without_last(NoticeKind::StartsSession, notices, 0);
        if k >= 0 {
            lemma_without_last(NoticeKind::StartsSession, notices, k);
        }
    }
}

/// A channel knows the endpoint and the token of the last voice server that was assigned to it in
/// the current session, and none if there was no such assignment: a new session forgets both.
pub proof fn law_voice_server_is_the_last_of_the_session(
    server_id: ServerId,
    notices: Seq<VoiceChannelNotice>,
    k: int,
)
    ensures
        NoticeKind::AssignsServer.none_from(notices, 0) ==> {
            &&& told(server_id, notices).endpoint is None
            &&& told(server_id, notices).voice_token is None
        },
        NoticeKind::StartsSession.last_at(notices, k) && NoticeKind::AssignsServer.none_from(
            notices,
            k,
        ) ==> {
            &&& told(server_id, notices).endpoint is None
            &&& told(server_id, notices).voice_token is None
        },
        NoticeKind::AssignsServer.last_at(notices, k) && NoticeKind::StartsSession.none_from(
            notices,
            k,
        ) ==> {
            &&& told(server_id, notices).endpoint == text(notices[k]->endpoint)
            &&& told(server_id, notices).voice_token == Some(notices[k]->token@)
        },
    decreases notices.len(),
{
    if notices.len() > 0 {
        law_voice_server_is_the_last_of_the_session(server_id, notices.drop_last(), k);
        lemma_without_last(NoticeKind::AssignsServer, notices, 0);
        if k >= 0 {
            lemma_without_last(NoticeKind::AssignsServer, notices, k);
            lemma_without_last(NoticeKind::StartsSession, notices, k);
        }
    }
}

/// A channel takes the user to be in the voice channel that was named last in the current session,
/// and in none if none was named: an assignment that names no channel leaves it as it was, and a
/// new session forgets it.
pub proof fn law_current_channel_is_the_last_named_in_the_session(
    server_id: ServerId,
    notices: Seq<VoiceChannelNotice>,
    k: int,
)
    ensures
        NoticeKind::NamesChannel.none_from(notices, 0) ==> told(
            server_id,
            notices,
        ).current_channel is None,
        NoticeKind::StartsSession.last_at(notices, k) && NoticeKind::NamesChannel.none_from(
            notices,
            k,
        ) ==> told(server_id, notices).current_channel is None,
        NoticeKind::NamesChannel.last_at(notices, k) && NoticeKind::StartsSession.none_from(
            notices,
            k,
        ) ==> told(server_id, notices).current_channel == notices[k]->channel_id,
    decreases notices.len(),
{
    if notices.len() > 0 {
        law_current_channel_is_the_last_named_in_the_session(server_id, notices.drop_last(), k);
        lemma_without_last(NoticeKind::NamesChannel, notices, 0);
        if k >= 0 {
            lemma_without_last(NoticeKind::NamesChannel, notices, k);
            lemma_without_last(NoticeKind::StartsSession, notices, k);
        }
    }
}

/// The value of a state shows every part of it, each string that is there as its text.
pub proof fn law_values_show_every_part(state: VoiceChannelState)
    ensures
        state@.server_id == state.server_id,
        state@.user_id == state.user_id,
        state@.current_channel == state.current_channel,
        state.endpoint matches Some(endpoint) ==> state@.endpoint == Some(endpoint@),
        state.endpoint is None ==> state@.endpoint is None,
        state.session_id matches Some(session_id) ==> state@.session_id == Some(session_id@),
        state.session_id is None ==> state@.session_id is None,
        state.voice_token matches Some(token) ==> state@.voice_token == Some(token@),
        state.voice_token is None ==> state@.voice_token is None,
{
}

/// Telling a channel something never fails, and what is passed on is all that the channel knows
/// then.
pub proof fn law_telling_never_fails(
    fold: &mut VoiceStateFold,
    notice: VoiceChannelNotice,
    result: Result<VoiceChannelState, Error>,
)
    requires
        call_ensures(VoiceStateFold::apply, (fold, notice), result),
    ensures
        result is Ok,
        result->Ok_0@ == final(fold).state@,
        final(fold).state.server_id == old(fold).state.server_id,
{
}

/// An assigned voice server replaces the one before it, whatever the notice says of the server and
/// of the voice channel: its endpoint, if it has one yet, and its token are known from then on. A
/// voice channel that is named is the current one from then on; if none is, the current one stays.
/// Nothing else changes.
pub proof fn law_assigned_servers_replace_one_another(
    fold: &mut VoiceStateFold,
    server_id: Option<ServerId>,
    channel_id: Option<ChannelId>,
    endpoint: Option<String>,
    token: String,
    result: Result<VoiceChannelState, Error>,
)
    requires
        call_ensures(
            VoiceStateFold::apply,
            (
                fold,
                (VoiceChannelNotice::VoiceServerUpdate { server_id, channel_id, endpoint, token }),
            ),
            result,
        ),
    ensures
        endpoint matches Some(address) ==> final(fold).state@.endpoint == Some(address@),
        endpoint is None ==> final(fold).state@.endpoint is None,
        final(fold).state@.voice_token == Some(token@),
        channel_id is Some ==> final(fold).state@.current_channel == channel_id,
        channel_id is None ==> final(fold).state@.current_channel == old(
            fold,
        ).state@.current_channel,
        final(fold).state@.user_id == old(fold).state@.user_id,
        final(fold).state@.session_id == old(fold).state@.session_id,
{
}

/// A new session is known from then on, and the voice server and the voice channel of the one before
/// are forgotten, even if the session goes by the same name. The user stays.
pub proof fn law_new_sessions_forget_the_voice_server(
    fold: &mut VoiceStateFold,
    session_id: String,
    result: Result<VoiceChannelState, Error>,
)
    requires
        call_ensures(
            VoiceStateFold::apply,
            (fold, (VoiceChannelNotice::SessionChange { session_id })),
            result,
        ),
    ensures
        final(fold).state@.session_id == Some(session_id@),
        final(fold).state@.endpoint is None,
        final(fold).state@.voice_token is None,
        final(fold).state@.current_channel is None,
        final(fold).state@.user_id == old(fold).state@.user_id,
{
}

/// The user is known from then on, in place of any that was known before, and nothing else changes.
pub proof fn law_users_replace_one_another(
    fold: &mut VoiceStateFold,
    user_id: UserId,
    result: Result<VoiceChannelState, Error>,
)
    requires
        call_ensures(
            VoiceStateFold::apply,
            (fold, (VoiceChannelNotice::Init { user_id })),
            result,
        ),
    ensures
        final(fold).state@.user_id == Some(user_id),
        final(fold).state@.endpoint == old(fold).state@.endpoint,
        final(fold).state@.session_id == old(fold).state@.session_id,
        final(fold).state@.voice_token == old(fold).state@.voice_token,
        final(fold).state@.current_channel == old(fold).state@.current_channel,
{
}

/// That a session goes on changes nothing of what a channel knows, but has it passed on again.
pub proof fn law_resuming_repeats_what_is_known(
    fold: &mut VoiceStateFold,
    result: Result<VoiceChannelState, Error>,
)
    requires
        call_ensures(VoiceStateFold::apply, (fold, VoiceChannelNotice::Resumed), result),
    ensures
        final(fold).state@ == old(fold).state@,
        result is Ok && result->Ok_0@ == old(fold).state@,
{
}

/// A new channel knows its server and nothing else, has nothing to tell, and is joined to the user's
/// end over one shared slot; the user's end has the command sender that it was to get.
pub proof fn law_new_channels_know_only_their_server(
    server_id: ServerId,
    mesg_tx: Sender<Value>,
    ends: (VoiceSink, VoiceControlChannel),
)
    requires
        call_ensures(new_handle, (server_id, mesg_tx), ends),
    ensures
        ends.0.transform().state@.server_id == server_id,
        ends.0.transform().state@.endpoint is None,
        ends.0.transform().state@.user_id is None,
        ends.0.transform().state@.session_id is None,
        ends.0.transform().state@.voice_token is None,
        ends.0.transform().state@.current_channel is None,
        ends.0.pending() is None,
        states_joined(ends.0.upstream(), ends.1.state_rx),
        state_buffer(ends.0.upstream()) == 1,
        ends.1.mesg_tx == mesg_tx,
{
}

/// An answer of a state channel is passed on as it is unless it is an error; any error becomes the
/// one that says that the user's end is gone.
pub proof fn law_channel_errors_mean_detached<T, G>(
    reply: Result<T, G>,
    mapped: Result<T, Error>,
)
    requires
        call_ensures(map_channel_error::<T, G>, (reply,), mapped),
    ensures
        reply matches Ok(value) ==> mapped == Ok::<T, Error>(value),
        reply is Err ==> mapped == Err::<T, Error>(
            Error::Other("Detached from discord connection"),
        ),
{
}

/// A copy of a state has the value of the state, and a copy of a notice is the notice.
pub proof fn law_copies_are_alike(
    state: &VoiceChannelState,
    state_copy: VoiceChannelState,
    notice: &VoiceChannelNotice,
    notice_copy: VoiceChannelNotice,
)
    requires
        call_ensures(VoiceChannelState::clone, (state,), state_copy),
        call_ensures(VoiceChannelNotice::clone, (notice,), notice_copy),
    ensures
        state_copy@ == state@,
        notice_copy == *notice,
{
}

} // verus!
