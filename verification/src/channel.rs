//! Bounded channels between tasks, from `futures::sync::mpsc`.
//!
//! Only the making of channels and of further senders happens here. The ends themselves have to be
//! polled by the task that owns them.

use futures::sync::mpsc;
use futures::sync::mpsc::{Receiver, Sender};
use serde_json::Value;
use vstd::prelude::*;

use crate::voice_internal::VoiceChannelState;

verus! {

/// Declares `futures::sync::mpsc::Sender`, the sending end of a bounded channel.
#[verifier::external_type_specification]
#[verifier::external_body]
#[verifier::reject_recursive_types(T)]
pub struct ExSender<T>(mpsc::Sender<T>);

/// Declares `futures::sync::mpsc::Receiver`, the receiving end of a channel.
#[verifier::external_type_specification]
#[verifier::external_body]
#[verifier::reject_recursive_types(T)]
pub struct ExReceiver<T>(mpsc::Receiver<T>);

/// Whether what is sent over `tx` arrives at `rx`: both are ends of the same channel.
pub uninterp spec fn commands_joined(tx: Sender<Value>, rx: Receiver<Value>) -> bool;

/// The number of slots that the channel of `tx` has beside the one that each sender owns.
pub uninterp spec fn command_buffer(tx: Sender<Value>) -> nat;

/// Whether what is sent over `tx` arrives at `rx`: both are ends of the same channel.
pub uninterp spec fn states_joined(
    tx: Sender<VoiceChannelState>,
    rx: Receiver<VoiceChannelState>,
) -> bool;

/// The number of slots that the channel of `tx` has beside the one that each sender owns.
pub uninterp spec fn state_buffer(tx: Sender<VoiceChannelState>) -> nat;

/// Makes a channel for commands with `futures::sync::mpsc::channel`, which builds the two ends on
/// one shared channel that keeps the requested buffer size. It panics on a buffer of a quarter of
/// the address space or more.
#[verifier::external_body]
pub(crate) fn command_channel(buffer: usize) -> (ends: (Sender<Value>, Receiver<Value>))
    requires
        buffer < usize::MAX / 4,
    ensures
        commands_joined(ends.0, ends.1),
        command_buffer(ends.0) == buffer,
{
    mpsc::channel(buffer)
}

/// Makes a channel for voice states with `futures::sync::mpsc::channel`, as `command_channel` does
/// for commands.
#[verifier::external_body]
pub(crate) fn state_channel(buffer: usize) -> (ends: (
    Sender<VoiceChannelState>,
    Receiver<VoiceChannelState>,
))
    requires
        buffer < usize::MAX / 4,
    ensures
        states_joined(ends.0, ends.1),
        state_buffer(ends.0) == buffer,
{
    mpsc::channel(buffer)
}

/// Makes another sender with `futures::sync::mpsc::Sender::clone`, which shares the channel of the
/// sender that it is given. It panics when about half of the address space in senders of one
/// channel exist at once, more than memory can hold.
#[verifier::external_body]
pub(crate) fn clone_sender(tx: &Sender<Value>) -> (copy: Sender<Value>)
    ensures
        forall|rx: Receiver<Value>| #[trigger] commands_joined(copy, rx) == commands_joined(*tx, rx),
        command_buffer(copy) == command_buffer(*tx),
{
    tx.clone()
}

} // verus!
