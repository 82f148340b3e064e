//! Voice-aware connection logic for a Discord gateway client.
//!
//! A [`connection::Connection`] keeps a gateway connection up and tells voice channels what they
//! need to know of it. The library decides and leaves the polling to its caller: an operation
//! returns what is to be done next, and a further method takes what came of it.

pub mod channel;
pub mod connection;
pub mod connection_laws;
pub mod error;
pub mod model;
pub mod operation_laws;
pub mod poll;
pub mod reconnector;
pub mod session;
pub mod state_update_sink;
pub mod voice_commands;
pub mod voice_internal;
