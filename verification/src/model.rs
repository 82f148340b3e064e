//! Identifiers and gateway events.

use serde_json::Value;
use vstd::prelude::*;

verus! {

/// Declares `serde_json::Value`: a JSON document that is carried along and never looked into.
#[verifier::external_type_specification]
#[verifier::external_body]
pub struct ExValue(serde_json::Value);

/// An identifier for a server.
#[derive(Debug, Clone, Copy, PartialEq, Eq, Hash, Structural)]
pub struct ServerId(pub u64);

/// An identifier for a channel.
#[derive(Debug, Clone, Copy, PartialEq, Eq, Hash, Structural)]
pub struct ChannelId(pub u64);

/// An identifier for a user.
#[derive(Debug, Clone, Copy, PartialEq, Eq, Hash, Structural)]
pub struct UserId(pub u64);

/// The user that a connection is logged in as.
#[derive(Debug)]
pub struct CurrentUser {
    pub id: UserId,
}

/// What the gateway announces when a session starts.
#[derive(Debug)]
pub struct ReadyEvent {
    pub user: CurrentUser,
    pub session_id: String,
}

/// An event received over the gateway connection.
#[derive(Debug)]
pub enum Event {
    /// A session has started.
    Ready(ReadyEvent),
    /// An interrupted session goes on.
    Resumed { trace: Vec<Option<String>> },
    /// A voice server was assigned.
    VoiceServerUpdate {
        server_id: Option<ServerId>,
        channel_id: Option<ChannelId>,
        endpoint: Option<String>,
        token: String,
    },
    /// Any other event, by its name and payload.
    Other { name: String, data: Value },
}

/// The text of an optional string.
pub open spec fn text(s: Option<String>) -> Option<Seq<char>> {
    match s {
        Some(s) => Some(s@),
        None => None,
    }
}

/// The text of a string that is there is that of the string, also if it is empty; only one that is
/// not there has none.
pub proof fn law_text_is_that_of_the_string(s: String)
    ensures
        text(Some(s)) == Some(s@),
        text(None) is None,
{
}

} // verus!
