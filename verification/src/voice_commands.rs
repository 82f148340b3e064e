//! How commands of voice channels are passed on to the gateway connection.

use serde_json::Value;
use vstd::prelude::*;

use crate::error::Error;
use crate::poll::{Async, AsyncSink, Poll, StartSend};

verus! {

/// What passing on commands asks of the caller next.
pub enum CommandStep {
    /// Poll the command receiver, and pass what it yields to `command_received`. A receiver whose
    /// channel was closed yields nothing that could be passed: as long as the connection holds a
    /// sender of its own, that cannot happen.
    PollReceiver,
    /// Send this command over the gateway connection, and pass the reply to `command_sent`.
    Send(Value),
    /// Flush the gateway connection, and pass the reply to `commands_flushed`.
    PollComplete,
    /// All is done that can be done now, with this result.
    Done(Result<(), Error>),
}

/// Takes the pending command out, to be sent; with none, the gateway connection is only flushed.
pub open spec fn take_command(pending: Option<Value>) -> (Option<Value>, CommandStep) {
    match pending {
        Some(command) => (None, CommandStep::Send(command)),
        None => (None, CommandStep::PollComplete),
    }
}

/// How passing on commands begins: the pending command after it, and the first step. A command
/// that is pending goes first; otherwise the receiver, if there is one, is asked for the next.
pub open spec fn begin_commands(receiving: bool, pending: Option<Value>) -> (
    Option<Value>,
    CommandStep,
) {
    if receiving && pending is None {
        (None, CommandStep::PollReceiver)
    } else {
        take_command(pending)
    }
}

/// How passing on commands goes on once the receiver has been polled.
pub open spec fn receive_command(pending: Option<Value>, reply: Async<Value>) -> (
    Option<Value>,
    CommandStep,
) {
    match reply {
        Async::Ready(command) => take_command(Some(command)),
        Async::NotReady => take_command(pending),
    }
}

/// How passing on commands goes on once the gateway connection has answered to a command. It has
/// to go on until something is not ready: only then will the task be woken when there is more to
/// do.
pub open spec fn send_command(
    receiving: bool,
    pending: Option<Value>,
    reply: StartSend<Value, Error>,
) -> (Option<Value>, CommandStep) {
    match reply {
        Err(e) => (pending, CommandStep::Done(Err(e))),
        Ok(AsyncSink::NotReady(command)) => (Some(command), CommandStep::Done(Ok(()))),
        Ok(AsyncSink::Ready) => begin_commands(receiving, pending),
    }
}

/// How passing on commands ends once the gateway connection has been flushed.
pub open spec fn flush_commands(reply: Poll<(), Error>) -> CommandStep {
    match reply {
        Err(e) => CommandStep::Done(Err(e)),
        Ok(_) => CommandStep::Done(Ok(())),
    }
}

/// An answer to one of the steps.
pub enum CommandReply {
    /// What the receiver yields.
    Received(Async<Value>),
    /// What the gateway connection answers to a command.
    Sent(StartSend<Value, Error>),
    /// What the gateway connection answers to a flush.
    Flushed(Poll<(), Error>),
}

/// How far passing on commands has come.
pub struct CommandRun {
    /// The command that is pending.
    pub pending: Option<Value>,
    /// What is to be done next.
    pub step: CommandStep,
    /// The commands that the receiver yielded, in order.
    pub received: Seq<Value>,
    /// The commands that the gateway connection accepted, in order.
    pub accepted: Seq<Value>,
    /// The commands that were lost to an error.
    pub failed: Seq<Value>,
}

/// How far passing on commands has come at its beginning.
pub open spec fn start_run(receiving: bool, pending: Option<Value>) -> CommandRun {
    let (pending, step) = begin_commands(receiving, pending);
    CommandRun { pending, step, received: seq![], accepted: seq![], failed: seq![] }
}

/// How far it has come once the next step was answered.
pub open spec fn advance(receiving: bool, run: CommandRun, reply: CommandReply) -> CommandRun {
    match (run.step, reply) {
        (CommandStep::PollReceiver, CommandReply::Received(yielded)) => {
            let (pending, step) = receive_command(run.pending, yielded);
            CommandRun {
                pending,
                step,
                received: match yielded {
                    Async::Ready(command) => run.received.push(command),
                    Async::NotReady => run.received,
                },
                ..run
            }
        },
        (CommandStep::Send(command), CommandReply::Sent(answer)) => {
            let (pending, step) = send_command(receiving, run.pending, answer);
            CommandRun {
                pending,
                step,
                accepted: if answer == Ok::<AsyncSink<Value>, Error>(AsyncSink::Ready) {
                    run.accepted.push(command)
                } else {
                    run.accepted
                },
                failed: if answer is Err {
                    run.failed.push(command)
                } else {
                    run.failed
                },
                ..run
            }
        },
        (CommandStep::PollComplete, CommandReply::Flushed(answer)) => {
            CommandRun { step: flush_commands(answer), ..run }
        },
        _ => run,
    }
}

/// How far it has come once all of `replies` were given.
pub open spec fn run_commands(
    receiving: bool,
    pending: Option<Value>,
    replies: Seq<CommandReply>,
) -> CommandRun
    decreases replies.len(),
{
    if replies.len() == 0 {
        start_run(receiving, pending)
    } else {
        advance(receiving, run_commands(receiving, pending, replies.drop_last()), replies.last())
    }
}

/// Whether the gateway connection hands back nothing but the command that it was given.
pub open spec fn hands_back_commands(
    receiving: bool,
    pending: Option<Value>,
    replies: Seq<CommandReply>,
) -> bool {
    forall|k: int|
        0 <= k < replies.len() ==> (#[trigger] replies[k] matches CommandReply::Sent(
            Ok(AsyncSink::NotReady(back)),
        ) ==> (run_commands(receiving, pending, replies.take(k)).step matches CommandStep::Send(
            command,
        ) ==> back == command))
}

/// A command that may be there, as a list.
pub open spec fn held(command: Option<Value>) -> Seq<Value> {
    match command {
        Some(command) => seq![command],
        None => seq![],
    }
}

/// The command that is being offered to the gateway connection, as a list.
pub open spec fn offered(step: CommandStep) -> Seq<Value> {
    match step {
        CommandStep::Send(command) => seq![command],
        _ => seq![],
    }
}

/// No command is dropped, doubled or overtaken on its way to the gateway connection: at every
/// point the command that was pending at first and those received since are, in this order, the
/// ones accepted, then the one lost to an error if there was an error, then the one in hand or
/// pending. At most one is in hand or pending, and a command is lost only to an error that ends
/// the run.
pub proof fn law_commands_pass_in_order(
    receiving: bool,
    pending: Option<Value>,
    replies: Seq<CommandReply>,
)
    requires
        hands_back_commands(receiving, pending, replies),
    ensures
        ({
            let run = run_commands(receiving, pending, replies);
            &&& held(pending) + run.received =~= run.accepted + run.failed + offered(run.step)
                + held(run.pending)
            &&& run.step is Done || run.pending is None
            &&& run.failed.len() <= 1
            &&& run.failed.len() == 1 ==> run.step matches CommandStep::Done(Err(_))
        }),
    decreases replies.len(),
{
    if replies.len() > 0 {
        let before = replies.drop_last();
        let n = before.len() as int;
        assert(replies.take(n) =~= before);
        assert(replies[n] == replies.last());
        assert forall|k: int| 0 <= k < before.len() implies (
        #[trigger] before[k] matches CommandReply::Sent(Ok(AsyncSink::NotReady(back))) ==> (
        run_commands(receiving, pending, before.take(k)).step matches CommandStep::Send(command)
            ==> back == command)) by {
            assert(before[k] == replies[k]);
            assert(before.take(k) =~= replies.take(k));
        }
        law_commands_pass_in_order(receiving, pending, before);
        let run = run_commands(receiving, pending, before);
        match (run.step, replies.last()) {
            (CommandStep::Send(command), CommandReply::Sent(answer)) => {
                assert(answer matches Ok(AsyncSink::NotReady(back)) ==> back == command);
                assert(run.failed =~= seq![]);
            },
            _ => {},
        }
    }
}

/// Passing on commands goes on until something is not ready: a command that was received is sent,
/// and after a command that was accepted there is always a next step.
pub proof fn law_commands_run_until_blocked(
    receiving: bool,
    pending: Option<Value>,
    command: Value,
)
    ensures
        receive_command(pending, Async::Ready(command)).1 == CommandStep::Send(command),
        !(send_command(receiving, pending, Ok(AsyncSink::Ready)).1 is Done),
        receiving ==> !(begin_commands(receiving, pending).1 is PollComplete),
{
}

/// A command that is pending is always sent first, whether or not there is a receiver. Without one
/// the receiver is polled, and only without a receiver is the gateway connection just flushed.
pub proof fn law_pending_commands_go_first(receiving: bool, command: Value)
    ensures
        begin_commands(receiving, Some(command)) == (
            None::<Value>,
            CommandStep::Send(command),
        ),
        begin_commands(true, None) == (None::<Value>, CommandStep::PollReceiver),
        begin_commands(false, None) == (None::<Value>, CommandStep::PollComplete),
{
}

/// What the receiver yields is sent, whatever it is; when it yields nothing, the gateway connection
/// is flushed, unless a command is pending.
pub proof fn law_received_commands_are_sent(
    pending: Option<Value>,
    command: Value,
)
    ensures
        receive_command(pending, Async::Ready(command)) == (
            None::<Value>,
            CommandStep::Send(command),
        ),
        receive_command(Some(command), Async::NotReady) == (
            None::<Value>,
            CommandStep::Send(command),
        ),
        receive_command(None, Async::NotReady) == (None::<Value>, CommandStep::PollComplete),
{
}

/// A command that is handed back is pending afterwards, and passing on commands is over for now. One
/// that is accepted is followed by the next. An error is passed on as it is and ends it.
pub proof fn law_answers_to_commands_are_heeded(
    receiving: bool,
    pending: Option<Value>,
    command: Value,
    error: Error,
)
    ensures
        send_command(receiving, pending, Ok(AsyncSink::NotReady(command))) == (
            Some(command),
            CommandStep::Done(Ok(())),
        ),
        send_command(receiving, Some(command), Ok(AsyncSink::Ready)) == (
            None::<Value>,
            CommandStep::Send(command),
        ),
        send_command(true, None, Ok(AsyncSink::Ready)) == (
            None::<Value>,
            CommandStep::PollReceiver,
        ),
        send_command(false, None, Ok(AsyncSink::Ready)) == (
            None::<Value>,
            CommandStep::PollComplete,
        ),
        send_command(receiving, pending, Err(error)) == (pending, CommandStep::Done(Err(error))),
{
}

/// A flush that goes through, or is not through yet, ends passing on commands well; one that fails
/// passes its error on.
pub proof fn law_flush_errors_are_passed_on(error: Error)
    ensures
        flush_commands(Ok(Async::Ready(()))) == CommandStep::Done(Ok(())),
        flush_commands(Ok(Async::NotReady)) == CommandStep::Done(Ok(())),
        flush_commands(Err(error)) == CommandStep::Done(Err(error)),
{
}

} // verus!
