//! What is known of the gateway session, across all the connections that serve it.

use vstd::prelude::*;

verus! {

/// The session that connections are set up for.
#[derive(Debug)]
pub struct SessionInfo {
    /// Where the gateway was found, once it has been looked up.
    pub gateway_url: Option<String>,
    /// How often connecting to the gateway failed.
    pub gateway_failures: u64,
    /// The session to resume, if one was started.
    pub session_id: Option<String>,
    /// The number of the last event received.
    pub last_seq: u64,
    /// Which shard this session is, of how many.
    pub shard_info: Option<[u8; 2]>,
    /// The time between heartbeats, in milliseconds.
    pub keepalive_interval: u64,
}

impl SessionInfo {
    /// A session of which nothing is known yet but its shard.
    pub open spec fn initial(shard_info: Option<[u8; 2]>) -> SessionInfo {
        SessionInfo {
            gateway_url: None,
            gateway_failures: 0,
            session_id: None,
            last_seq: 0,
            shard_info,
            keepalive_interval: 0,
        }
    }

    /// A session of which nothing is known yet but its shard.
    pub fn new(shard_info: Option<[u8; 2]>) -> (session: SessionInfo)
        ensures
            session == SessionInfo::initial(shard_info),
            session.shard_info == shard_info,
            session.gateway_url is None,
            session.gateway_failures == 0,
            session.session_id is None,
            session.last_seq == 0,
            session.keepalive_interval == 0,
    {
        SessionInfo {
            gateway_url: None,
            gateway_failures: 0,
            session_id: None,
            last_seq: 0,
            shard_info,
            keepalive_interval: 0,
        }
    }
}

/// A session begins with exactly the shard that it is asked for, whichever that is, and with
/// nothing to resume: no gateway, no session, no event seen, no failure and no heartbeat.
pub proof fn law_sessions_begin_with_their_shard_alone(shard_info: Option<[u8; 2]>)
    ensures
        SessionInfo::initial(shard_info).shard_info == shard_info,
        SessionInfo::initial(shard_info).gateway_url is None,
        SessionInfo::initial(shard_info).gateway_failures == 0,
        SessionInfo::initial(shard_info).session_id is None,
        SessionInfo::initial(shard_info).last_seq == 0,
        SessionInfo::initial(shard_info).keepalive_interval == 0,
{
}

/// Sessions for different shards never begin alike.
pub proof fn law_sessions_tell_shards_apart(one: Option<[u8; 2]>, other: Option<[u8; 2]>)
    ensures
        SessionInfo::initial(one) == SessionInfo::initial(other) <==> one == other,
{
}

/// Whatever shard is asked for, a new session is for that shard and has nothing to resume.
pub proof fn law_new_sessions_are_for_their_shard(
    shard_info: Option<[u8; 2]>,
    session: SessionInfo,
)
    requires
        call_ensures(SessionInfo::new, (shard_info,), session),
    ensures
        session.shard_info == shard_info,
        session.gateway_url is None,
        session.gateway_failures == 0,
        session.session_id is None,
        session.last_seq == 0,
        session.keepalive_interval == 0,
{
}

} // verus!
