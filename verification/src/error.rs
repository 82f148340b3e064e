//! The errors of the library.

use vstd::prelude::*;

verus! {

/// Why an operation on a connection or a voice channel failed.
#[derive(Debug, Clone, Copy, PartialEq, Eq)]
pub enum Error {
    /// Any other failure, described by a fixed message.
    Other(&'static str),
}

/// The connection was closed by its owner and is being used anyway.
pub open spec fn closed_error() -> Error {
    Error::Other("Attempted to use a closed connection")
}

/// The receiving half of a voice channel is gone.
pub open spec fn detached_error() -> Error {
    Error::Other("Detached from discord connection")
}

/// The error of a connection that was closed.
pub(crate) fn closed() -> (e: Error)
    ensures
        e == closed_error(),
{
    Error::Other("Attempted to use a closed connection")
}

/// Each error says what went wrong, in words of its own.
pub proof fn law_errors_say_what_went_wrong()
    ensures
        closed_error() matches Error::Other(message) && message@
            == "Attempted to use a closed connection"@,
        detached_error() matches Error::Other(message) && message@
            == "Detached from discord connection"@,
        closed_error() != detached_error(),
{
    reveal_strlit("Attempted to use a closed connection");
    reveal_strlit("Detached from discord connection");
    assert("Attempted to use a closed connection"@[0] == 'A');
    assert("Detached from discord connection"@[0] == 'D');
}

} // verus!
