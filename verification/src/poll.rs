//! Outcomes of non-blocking operations.

use vstd::prelude::*;

verus! {

/// What a poll found: a value, or nothing yet.
#[derive(Debug, PartialEq, Eq)]
pub enum Async<T> {
    Ready(T),
    NotReady,
}

/// What became of an item offered to a sink: taken, or handed back because the sink is full.
#[derive(Debug, PartialEq, Eq)]
pub enum AsyncSink<T> {
    Ready,
    NotReady(T),
}

/// Result of polling for a value.
pub type Poll<T, E> = Result<Async<T>, E>;

/// Result of offering an item to a sink.
pub type StartSend<T, E> = Result<AsyncSink<T>, E>;

} // verus!
