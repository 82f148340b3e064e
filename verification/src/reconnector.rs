//! A gateway connection that is put up again whenever it is lost.
//!
//! Nothing here touches the network. Each operation returns what is to be done with the connection
//! or with the attempt to set one up, and a further method takes what came of it.

use serde_json::Value;
use vstd::prelude::*;

use crate::error::{closed, closed_error, Error};
use crate::model::Event;
use crate::poll::{Async, AsyncSink, Poll, StartSend};

verus! {

/// What a `Reconnector` has in hand: `Attempt` is a connection that is being set up, `Conn` one
/// that is up.
pub enum ConnState<Attempt, Conn> {
    Connecting(Attempt),
    Active(Conn),
    Closed,
}

/// This stream+sink offers a stream of events to/from discord that will automatically reconnect.
/// Voice handling is performed at the `Connection` level.
pub struct Reconnector<Attempt, Conn> {
    state: ConnState<Attempt, Conn>,
}

/// What polling an attempt to connect came to.
pub enum ConnectReply<Conn> {
    /// The connection is up.
    Ready(Conn),
    /// The attempt goes on.
    NotReady,
    /// The attempt failed.
    Failed,
}

/// What an operation asks of the caller next. `Input` is what the operation works on, `Output`
/// what it returns.
pub enum Step<Input, Output> {
    /// Poll the attempt to connect, and pass on the reply and the input.
    PollConnect(Input),
    /// Perform the operation on the connection itself, and pass on its reply.
    Use(Input),
    /// The connection is lost: start an attempt and hand it to `_reconnect`, poll it and pass the
    /// reply to `reconnect_polled`, and again while that says so. The operation then returns this.
    Reconnect(Output),
    /// The operation returns this.
    Done(Output),
}

/// What closing asks of the caller next.
pub enum DisconnectStep<Conn> {
    /// Close this connection, and pass its answer to `disconnected`.
    CloseConnection(Conn),
    /// The close is over, with this result.
    Done(Poll<(), Error>),
}

/// How a close begins: a connection that is up is closed, an attempt to set one up is dropped.
pub open spec fn disconnect<Attempt, Conn>(
    state: ConnState<Attempt, Conn>,
) -> DisconnectStep<Conn> {
    match state {
        ConnState::Active(conn) => DisconnectStep::CloseConnection(conn),
        _ => DisconnectStep::Done(Ok(Async::Ready(()))),
    }
}

/// How an operation on `input` begins. `refused` is what it returns on a closed reconnector.
pub open spec fn begin<Attempt, Conn, Input, Output>(
    state: ConnState<Attempt, Conn>,
    input: Input,
    refused: Output,
) -> Step<Input, Output> {
    match state {
        ConnState::Active(_) => Step::Use(input),
        ConnState::Connecting(_) => Step::PollConnect(input),
        ConnState::Closed => Step::Done(refused),
    }
}

/// What is in hand once an attempt has been polled.
pub open spec fn after_connect<Attempt, Conn>(
    state: ConnState<Attempt, Conn>,
    reply: ConnectReply<Conn>,
) -> ConnState<Attempt, Conn> {
    match reply {
        ConnectReply::Ready(conn) => ConnState::Active(conn),
        _ => state,
    }
}

/// How an operation on `input` goes on once the attempt has been polled. `blocked` is what it
/// returns while there is no connection.
pub open spec fn resume<Conn, Input, Output>(
    reply: ConnectReply<Conn>,
    input: Input,
    blocked: Output,
) -> Step<Input, Output> {
    match reply {
        ConnectReply::Ready(_) => Step::Use(input),
        ConnectReply::NotReady => Step::Done(blocked),
        ConnectReply::Failed => Step::Reconnect(blocked),
    }
}

/// How an operation that is to return `output` ends when the connection is lost. A connection that
/// was closed on purpose is not put up again.
pub open spec fn lost<Attempt, Conn, Input, Output>(
    state: ConnState<Attempt, Conn>,
    output: Output,
) -> Step<Input, Output> {
    if state is Closed {
        Step::Done(output)
    } else {
        Step::Reconnect(output)
    }
}

/// How `poll` ends once the connection has replied. An error and the end of the stream both mean
/// that the connection is lost.
pub open spec fn poll_used<Attempt, Conn>(
    state: ConnState<Attempt, Conn>,
    reply: Poll<Option<Event>, Error>,
) -> Step<(), Poll<Option<Event>, Error>> {
    match reply {
        Err(_) | Ok(Async::Ready(None)) => lost(
            state,
            Ok::<Async<Option<Event>>, Error>(Async::NotReady),
        ),
        _ => Step::Done(reply),
    }
}

/// How `poll_complete` ends once the connection has replied.
pub open spec fn complete_used<Attempt, Conn>(
    state: ConnState<Attempt, Conn>,
    reply: Poll<(), Error>,
) -> Step<(), Poll<(), Error>> {
    match reply {
        Err(_) => lost(state, Ok::<Async<()>, Error>(Async::NotReady)),
        Ok(_) => Step::Done(reply),
    }
}

/// How `start_send` ends once the connection has replied. A connection that fails does not hand
/// the item back, so the item is lost; it counts as sent all the same.
pub open spec fn send_used<Attempt, Conn>(
    state: ConnState<Attempt, Conn>,
    reply: StartSend<Value, Error>,
) -> Step<Value, StartSend<Value, Error>> {
    match reply {
        Err(_) => lost(state, Ok::<AsyncSink<Value>, Error>(AsyncSink::Ready)),
        Ok(_) => Step::Done(reply),
    }
}

/// One thing that changes what a reconnector has in hand.
pub enum Change<Attempt, Conn> {
    /// An attempt to connect is started with `_reconnect`.
    Started(Attempt),
    /// The attempt is polled in the course of some operation, with this reply.
    Polled(ConnectReply<Conn>),
    /// The attempt was lent out with `attempt_mut`, and is now this.
    AttemptUsed(Attempt),
    /// The connection was lent out with `connection_mut`, and is now this.
    ConnectionUsed(Conn),
    /// The reconnector is closed.
    Closed,
}

/// What a reconnector has in hand after a change.
pub open spec fn after_change<Attempt, Conn>(
    state: ConnState<Attempt, Conn>,
    change: Change<Attempt, Conn>,
) -> ConnState<Attempt, Conn> {
    match (state, change) {
        (_, Change::Started(attempt)) => ConnState::Connecting(attempt),
        (ConnState::Connecting(_), Change::Polled(reply)) => after_connect(state, reply),
        (ConnState::Connecting(_), Change::AttemptUsed(attempt)) => ConnState::Connecting(attempt),
        (ConnState::Active(_), Change::ConnectionUsed(conn)) => ConnState::Active(conn),
        (_, Change::Closed) => ConnState::Closed,
        _ => state,
    }
}

impl<Attempt, Conn> View for Reconnector<Attempt, Conn> {
    type V = ConnState<Attempt, Conn>;

    closed spec fn view(&self) -> ConnState<Attempt, Conn> {
        self.state
    }
}

impl<Attempt, Conn> Reconnector<Attempt, Conn> {
    /// A reconnector that has not been started: `_reconnect` starts it.
    pub fn new() -> (reconnector: Self)
        ensures
            reconnector@ is Closed,
    {
        Reconnector { state: ConnState::Closed }
    }

    /// The attempt to connect that is under way, for the caller to poll.
    pub fn attempt_mut(&mut self) -> (attempt: Option<&mut Attempt>)
        ensures
            match old(self)@ {
                ConnState::Connecting(current) => {
                    &&& attempt matches Some(a)
                    &&& *a == current
                    &&& final(self)@ == after_change(old(self)@, Change::AttemptUsed(*final(a)))
                },
                _ => attempt is None && final(self)@ == old(self)@,
            },
    {
        match &mut self.state {
            ConnState::Connecting(attempt) => Some(attempt),
            _ => None,
        }
    }

    /// The connection that is up, for the caller to use.
    pub fn connection_mut(&mut self) -> (conn: Option<&mut Conn>)
        ensures
            match old(self)@ {
                ConnState::Active(current) => {
                    &&& conn matches Some(c)
                    &&& *c == current
                    &&& final(self)@ == after_change(old(self)@, Change::ConnectionUsed(*final(c)))
                },
                _ => conn is None && final(self)@ == old(self)@,
            },
    {
        match &mut self.state {
            ConnState::Active(conn) => Some(conn),
            _ => None,
        }
    }

    /// Begins the connection process, from any state: a closed reconnector opens again.
    pub fn _reconnect(&mut self, attempt: Attempt)
        ensures
            final(self)@ == after_change(old(self)@, Change::Started(attempt)),
    {
        self.state = ConnState::Connecting(attempt);
    }

    /// Ends an operation that is to return `output` and has found the connection lost.
    pub fn reconnect<Input, Output>(&self, output: Output) -> (step: Step<Input, Output>)
        ensures
            step == lost::<Attempt, Conn, Input, Output>(self@, output),
    {
        match self.state {
            ConnState::Closed => Step::Done(output),
            _ => Step::Reconnect(output),
        }
    }

    /// Takes the first reply of an attempt that replaces a lost connection. Says whether yet
    /// another attempt is needed.
    pub fn reconnect_polled(&mut self, reply: ConnectReply<Conn>) -> (again: bool)
        requires
            old(self)@ is Connecting,
        ensures
            final(self)@ == after_change(old(self)@, Change::Polled(reply)),
            again == (reply is Failed),
    {
        match reply {
            ConnectReply::Ready(conn) => {
                self.state = ConnState::Active(conn);
                false
            },
            ConnectReply::NotReady => false,
            ConnectReply::Failed => true,
        }
    }

    /// Begins an operation that needs the connection.
    pub fn connection<Input, Output>(&self, input: Input, refused: Output) -> (step: Step<
        Input,
        Output,
    >)
        ensures
            step == begin(self@, input, refused),
    {
        match self.state {
            ConnState::Active(_) => Step::Use(input),
            ConnState::Connecting(_) => Step::PollConnect(input),
            ConnState::Closed => Step::Done(refused),
        }
    }

    /// Continues an operation that needs the connection with the reply of the attempt to set it
    /// up. An attempt that failed is replaced by a new one.
    pub fn finish_connect<Input, Output>(
        &mut self,
        reply: ConnectReply<Conn>,
        input: Input,
        blocked: Output,
    ) -> (step: Step<Input, Output>)
        requires
            old(self)@ is Connecting,
        ensures
            final(self)@ == after_change(old(self)@, Change::Polled(reply)),
            step == resume(reply, input, blocked),
    {
        match reply {
            ConnectReply::Ready(conn) => {
                self.state = ConnState::Active(conn);
                self.connection(input, blocked)
            },
            ConnectReply::NotReady => Step::Done(blocked),
            ConnectReply::Failed => self.reconnect(blocked),
        }
    }

    /// Begins to poll for an event. On a closed reconnector there is never one.
    pub fn poll(&self) -> (step: Step<(), Poll<Option<Event>, Error>>)
        ensures
            step == begin(self@, (), Ok::<Async<Option<Event>>, Error>(Async::NotReady)),
    {
        self.connection((), Ok(Async::NotReady))
    }

    /// Continues `poll` with the reply of the attempt to connect.
    pub fn poll_connected(&mut self, reply: ConnectReply<Conn>) -> (step: Step<
        (),
        Poll<Option<Event>, Error>,
    >)
        requires
            old(self)@ is Connecting,
        ensures
            final(self)@ == after_change(old(self)@, Change::Polled(reply)),
            step == resume(reply, (), Ok::<Async<Option<Event>>, Error>(Async::NotReady)),
    {
        self.finish_connect(reply, (), Ok(Async::NotReady))
    }

    /// Continues `poll` with what the connection came up with.
    pub fn polled(&self, reply: Poll<Option<Event>, Error>) -> (step: Step<
        (),
        Poll<Option<Event>, Error>,
    >)
        ensures
            step == poll_used(self@, reply),
    {
        match reply {
            Err(_) => self.reconnect(Ok(Async::NotReady)),
            Ok(Async::Ready(None)) => self.reconnect(Ok(Async::NotReady)),
            success => Step::Done(success),
        }
    }

    /// Begins to flush the connection. On a closed reconnector that is an error.
    pub fn poll_complete(&self) -> (step: Step<(), Poll<(), Error>>)
        ensures
            step == begin(self@, (), Err::<Async<()>, Error>(closed_error())),
    {
        self.connection((), Err(closed()))
    }

    /// Continues `poll_complete` with the reply of the attempt to connect.
    pub fn poll_complete_connected(&mut self, reply: ConnectReply<Conn>) -> (step: Step<
        (),
        Poll<(), Error>,
    >)
        requires
            old(self)@ is Connecting,
        ensures
            final(self)@ == after_change(old(self)@, Change::Polled(reply)),
            step == resume(reply, (), Ok::<Async<()>, Error>(Async::NotReady)),
    {
        self.finish_connect(reply, (), Ok(Async::NotReady))
    }

    /// Continues `poll_complete` with the connection's reply.
    pub fn completed(&self, reply: Poll<(), Error>) -> (step: Step<(), Poll<(), Error>>)
        ensures
            step == complete_used(self@, reply),
    {
        match reply {
            Err(_) => self.reconnect(Ok(Async::NotReady)),
            success => Step::Done(success),
        }
    }

    /// Begins to send an item. On a closed reconnector that is an error.
    pub fn start_send(&self, item: Value) -> (step: Step<Value, StartSend<Value, Error>>)
        ensures
            step == begin(self@, item, Err::<AsyncSink<Value>, Error>(closed_error())),
    {
        self.connection(item, Err(closed()))
    }

    /// Continues `start_send` with the reply of the attempt to connect. While there is no
    /// connection the item is handed back.
    pub fn start_send_connected(
        &mut self,
        item: Value,
        reply: ConnectReply<Conn>,
    ) -> (step: Step<Value, StartSend<Value, Error>>)
        requires
            old(self)@ is Connecting,
        ensures
            final(self)@ == after_change(old(self)@, Change::Polled(reply)),
            step == resume(reply, item, Ok::<AsyncSink<Value>, Error>(AsyncSink::NotReady(item))),
    {
        match reply {
            ConnectReply::Ready(conn) => {
                self.state = ConnState::Active(conn);
                Step::Use(item)
            },
            ConnectReply::NotReady => Step::Done(Ok(AsyncSink::NotReady(item))),
            ConnectReply::Failed => self.reconnect(Ok(AsyncSink::NotReady(item))),
        }
    }

    /// Continues `start_send` with the connection's reply.
    pub fn item_sent(&self, reply: StartSend<Value, Error>) -> (step: Step<
        Value,
        StartSend<Value, Error>,
    >)
        ensures
            step == send_used(self@, reply),
    {
        match reply {
            Err(_) => self.reconnect(Ok(AsyncSink::Ready)),
            other => Step::Done(other),
        }
    }

    /// Closes the reconnector for good. A connection that is up is handed out, for the caller to
    /// close.
    pub fn close(&mut self) -> (step: DisconnectStep<Conn>)
        ensures
            final(self)@ == after_change(old(self)@, Change::Closed),
            step == disconnect(old(self)@),
    {
        let mut state = ConnState::Closed;
        std::mem::swap(&mut self.state, &mut state);
        match state {
            ConnState::Active(conn) => DisconnectStep::CloseConnection(conn),
            _ => DisconnectStep::Done(Ok(Async::Ready(()))),
        }
    }

    /// Ends a close with the answer of the connection that was closed. Whatever that is, the
    /// reconnector is closed.
    pub fn disconnected(&self, reply: Poll<(), Error>) -> (result: Poll<(), Error>)
        ensures
            result == Ok::<Async<()>, Error>(Async::Ready(())),
    {
        let _ = reply;
        Ok(Async::Ready(()))
    }
}

/// What a reconnector has in hand after a run of changes.
pub open spec fn after_changes<Attempt, Conn>(
    state: ConnState<Attempt, Conn>,
    changes: Seq<Change<Attempt, Conn>>,
) -> ConnState<Attempt, Conn>
    decreases changes.len(),
{
    if changes.len() == 0 {
        state
    } else {
        after_change(after_changes(state, changes.drop_last()), changes.last())
    }
}

/// A reconnector that was started is closed only by closing it: losing the connection and failing
/// to set one up never close it.
pub proof fn law_only_close_closes<Attempt, Conn>(
    state: ConnState<Attempt, Conn>,
    changes: Seq<Change<Attempt, Conn>>,
)
    requires
        !(state is Closed),
        forall|k: int| 0 <= k < changes.len() ==> !(#[trigger] changes[k] is Closed),
    ensures
        !(after_changes(state, changes) is Closed),
    decreases changes.len(),
{
    if changes.len() > 0 {
        let before = changes.drop_last();
        assert forall|k: int| 0 <= k < before.len() implies !(#[trigger] before[k] is Closed) by {
            assert(before[k] == changes[k]);
        }
        law_only_close_closes(state, before);
        assert(changes.last() == changes[changes.len() - 1]);
    }
}

/// A closed reconnector stays closed, whatever is done with it, until it is started anew; and no
/// operation on it asks for a new attempt.
pub proof fn law_closed_stays_closed<Attempt, Conn>(
    changes: Seq<Change<Attempt, Conn>>,
    item: Value,
    event: Poll<Option<Event>, Error>,
    flush: Poll<(), Error>,
    send: StartSend<Value, Error>,
)
    requires
        forall|k: int| 0 <= k < changes.len() ==> !(#[trigger] changes[k] is Started),
    ensures
        ({
            let state = after_changes(ConnState::<Attempt, Conn>::Closed, changes);
            &&& state is Closed
            &&& begin(state, (), Ok::<Async<Option<Event>>, Error>(Async::NotReady)) is Done
            &&& begin(state, (), Err::<Async<()>, Error>(closed_error())) is Done
            &&& begin(state, item, Err::<AsyncSink<Value>, Error>(closed_error())) is Done
            &&& poll_used(state, event) is Done
            &&& complete_used(state, flush) is Done
            &&& send_used(state, send) is Done
        }),
    decreases changes.len(),
{
    if changes.len() > 0 {
        let before = changes.drop_last();
        assert forall|k: int| 0 <= k < before.len() implies !(#[trigger] before[k] is Started) by {
            assert(before[k] == changes[k]);
        }
        law_closed_stays_closed::<Attempt, Conn>(before, item, event, flush, send);
        assert(changes.last() == changes[changes.len() - 1]);
    }
}

/// Closing twice is the same as closing once: the second time there is nothing left to close.
pub proof fn law_closing_twice_changes_nothing<Attempt, Conn>(state: ConnState<Attempt, Conn>)
    ensures
        ({
            let closed = after_change(state, Change::Closed);
            &&& after_change(closed, Change::Closed) == closed
            &&& disconnect(closed) == DisconnectStep::<Conn>::Done(Ok(Async::Ready(())))
        }),
{
}

/// A started reconnector puts the connection up again whenever it is lost: every error of the
/// connection, the end of its events and every attempt that fails lead to a new attempt.
pub proof fn law_lost_connections_are_replaced<Attempt, Conn, Input, Output>(
    state: ConnState<Attempt, Conn>,
    error: Error,
    input: Input,
    blocked: Output,
)
    requires
        !(state is Closed),
    ensures
        poll_used(state, Err(error)) is Reconnect,
        poll_used(state, Ok(Async::Ready(None))) is Reconnect,
        complete_used(state, Err(error)) is Reconnect,
        send_used(state, Err(error)) is Reconnect,
        resume(ConnectReply::<Conn>::Failed, input, blocked) is Reconnect,
{
}

/// Every operation comes to an end: once the attempt was polled it is not polled again, and once
/// the connection has replied there is nothing left but to return, with or without a new attempt.
pub proof fn law_operations_end<Attempt, Conn, Input, Output>(
    state: ConnState<Attempt, Conn>,
    reply: ConnectReply<Conn>,
    input: Input,
    blocked: Output,
    event: Poll<Option<Event>, Error>,
    flush: Poll<(), Error>,
    send: StartSend<Value, Error>,
)
    ensures
        !(resume(reply, input, blocked) is PollConnect),
        output(poll_used(state, event)) is Some,
        output(complete_used(state, flush)) is Some,
        output(send_used(state, send)) is Some,
{
}

/// The output of an operation that ends with this step, if it ends.
pub open spec fn output<Input, Output>(step: Step<Input, Output>) -> Option<Output> {
    match step {
        Step::Reconnect(output) | Step::Done(output) => Some(output),
        _ => None,
    }
}

/// No failure of the connection reaches the user: polling for an event never fails, and flushing
/// and sending fail only on a closed reconnector, before the connection is even looked for.
pub proof fn law_only_a_closed_reconnector_fails<Attempt, Conn>(
    state: ConnState<Attempt, Conn>,
    reply: ConnectReply<Conn>,
    item: Value,
    event: Poll<Option<Event>, Error>,
    flush: Poll<(), Error>,
    send: StartSend<Value, Error>,
)
    ensures
        output(begin(state, (), Ok::<Async<Option<Event>>, Error>(Async::NotReady))) matches Some(r)
            ==> r is Ok,
        output(begin(state, (), Err::<Async<()>, Error>(closed_error()))) matches Some(r) ==> r
            == Err::<Async<()>, Error>(closed_error()) && state is Closed,
        output(begin(state, item, Err::<AsyncSink<Value>, Error>(closed_error()))) matches Some(r)
            ==> r == Err::<AsyncSink<Value>, Error>(closed_error()) && state is Closed,
        output(resume(reply, (), Ok::<Async<Option<Event>>, Error>(Async::NotReady))) matches Some(
            r,
        ) ==> r is Ok,
        output(resume(reply, (), Ok::<Async<()>, Error>(Async::NotReady))) matches Some(r) ==> r
            is Ok,
        output(
            resume(reply, item, Ok::<AsyncSink<Value>, Error>(AsyncSink::NotReady(item))),
        ) matches Some(r) ==> r is Ok,
        output(poll_used(state, event)) matches Some(r) ==> r is Ok,
        output(complete_used(state, flush)) matches Some(r) ==> r is Ok,
        output(send_used(state, send)) matches Some(r) ==> r is Ok,
{
}

/// Polling passes on whatever the connection comes up with, in every state: each event is returned
/// just as it is, and nothing is made of there being none yet. Only an error and the end of the
/// events are kept from the user, who is told that there is nothing yet; unless the reconnector was
/// closed, a new attempt is started.
pub proof fn law_events_pass_through_unchanged<Attempt, Conn>(
    reconnector: &Reconnector<Attempt, Conn>,
    reply: Poll<Option<Event>, Error>,
    step: Step<(), Poll<Option<Event>, Error>>,
)
    requires
        call_ensures(Reconnector::<Attempt, Conn>::polled, (reconnector, reply), step),
    ensures
        reply matches Ok(Async::Ready(Some(event))) ==> step == Step::<
            (),
            Poll<Option<Event>, Error>,
        >::Done(Ok(Async::Ready(Some(event)))),
        reply == Ok::<Async<Option<Event>>, Error>(Async::NotReady) ==> step == Step::<
            (),
            Poll<Option<Event>, Error>,
        >::Done(Ok(Async::NotReady)),
        (reply is Err || reply == Ok::<Async<Option<Event>>, Error>(Async::Ready(None))) && !(
        reconnector@ is Closed) ==> step == Step::<(), Poll<Option<Event>, Error>>::Reconnect(
            Ok(Async::NotReady),
        ),
        (reply is Err || reply == Ok::<Async<Option<Event>>, Error>(Async::Ready(None)))
            && reconnector@ is Closed ==> step == Step::<(), Poll<Option<Event>, Error>>::Done(
            Ok(Async::NotReady),
        ),
{
}

/// Flushing passes on the connection's answer as it is, unless that is an error: then the flush is
/// not through, and unless the reconnector was closed a new attempt is started.
pub proof fn law_flushes_pass_through_unchanged<Attempt, Conn>(
    reconnector: &Reconnector<Attempt, Conn>,
    reply: Poll<(), Error>,
    step: Step<(), Poll<(), Error>>,
)
    requires
        call_ensures(Reconnector::<Attempt, Conn>::completed, (reconnector, reply), step),
    ensures
        reply is Ok ==> step == Step::<(), Poll<(), Error>>::Done(reply),
        reply is Err && !(reconnector@ is Closed) ==> step == Step::<
            (),
            Poll<(), Error>,
        >::Reconnect(Ok(Async::NotReady)),
        reply is Err && reconnector@ is Closed ==> step == Step::<(), Poll<(), Error>>::Done(
            Ok(Async::NotReady),
        ),
{
}

/// Sending passes on the connection's answer as it is, with the very item that is handed back,
/// unless it is an error: then the item counts as sent, and unless the reconnector was closed a new
/// attempt is started.
pub proof fn law_sends_pass_through_unchanged<Attempt, Conn>(
    reconnector: &Reconnector<Attempt, Conn>,
    reply: StartSend<Value, Error>,
    step: Step<Value, StartSend<Value, Error>>,
)
    requires
        call_ensures(Reconnector::<Attempt, Conn>::item_sent, (reconnector, reply), step),
    ensures
        reply is Ok ==> step == Step::<Value, StartSend<Value, Error>>::Done(reply),
        reply is Err && !(reconnector@ is Closed) ==> step == Step::<
            Value,
            StartSend<Value, Error>,
        >::Reconnect(Ok(AsyncSink::Ready)),
        reply is Err && reconnector@ is Closed ==> step == Step::<
            Value,
            StartSend<Value, Error>,
        >::Done(Ok(AsyncSink::Ready)),
{
}

/// The same of how the three operations are described.
pub proof fn law_replies_pass_through_unchanged<Attempt, Conn>(
    state: ConnState<Attempt, Conn>,
    event: Event,
    flush: Async<()>,
    send: AsyncSink<Value>,
)
    ensures
        poll_used(state, Ok(Async::Ready(Some(event)))) == Step::<
            (),
            Poll<Option<Event>, Error>,
        >::Done(Ok(Async::Ready(Some(event)))),
        poll_used(state, Ok(Async::NotReady)) == Step::<(), Poll<Option<Event>, Error>>::Done(
            Ok(Async::NotReady),
        ),
        complete_used(state, Ok(flush)) == Step::<(), Poll<(), Error>>::Done(Ok(flush)),
        send_used(state, Ok(send)) == Step::<Value, StartSend<Value, Error>>::Done(Ok(send)),
{
}

/// Every operation begins alike: a connection that is up is used at once, and an attempt that is
/// under way is polled first. A closed reconnector has no event to offer, and refuses to flush and
/// to send, with an error that says that it is closed.
pub proof fn law_operations_begin_with_what_is_in_hand<Attempt, Conn>(
    reconnector: &Reconnector<Attempt, Conn>,
    item: Value,
    polled: Step<(), Poll<Option<Event>, Error>>,
    flushed: Step<(), Poll<(), Error>>,
    sent: Step<Value, StartSend<Value, Error>>,
)
    requires
        call_ensures(Reconnector::<Attempt, Conn>::poll, (reconnector,), polled),
        call_ensures(Reconnector::<Attempt, Conn>::poll_complete, (reconnector,), flushed),
        call_ensures(Reconnector::<Attempt, Conn>::start_send, (reconnector, item), sent),
    ensures
        reconnector@ is Active ==> {
            &&& polled is Use
            &&& flushed is Use
            &&& sent == Step::<Value, StartSend<Value, Error>>::Use(item)
        },
        reconnector@ is Connecting ==> {
            &&& polled is PollConnect
            &&& flushed is PollConnect
            &&& sent == Step::<Value, StartSend<Value, Error>>::PollConnect(item)
        },
        reconnector@ is Closed ==> {
            &&& polled == Step::<(), Poll<Option<Event>, Error>>::Done(Ok(Async::NotReady))
            &&& flushed == Step::<(), Poll<(), Error>>::Done(
                Err(Error::Other("Attempted to use a closed connection")),
            )
            &&& sent == Step::<Value, StartSend<Value, Error>>::Done(
                Err(Error::Other("Attempted to use a closed connection")),
            )
        },
{
}

/// An operation of any kind, on any input, begins with what is in hand: with the connection, with
/// the attempt, or not at all.
pub proof fn law_any_operation_begins_with_what_is_in_hand<Attempt, Conn, Input, Output>(
    reconnector: &Reconnector<Attempt, Conn>,
    input: Input,
    refused: Output,
    step: Step<Input, Output>,
)
    requires
        call_ensures(
            Reconnector::<Attempt, Conn>::connection::<Input, Output>,
            (reconnector, input, refused),
            step,
        ),
    ensures
        reconnector@ is Active ==> step == Step::<Input, Output>::Use(input),
        reconnector@ is Connecting ==> step == Step::<Input, Output>::PollConnect(input),
        reconnector@ is Closed ==> step == Step::<Input, Output>::Done(refused),
{
}

/// Giving up a lost connection starts a new attempt exactly if the reconnector was not closed; what
/// the operation returns is the same either way.
pub proof fn law_only_open_reconnectors_reconnect<Attempt, Conn, Input, Output>(
    reconnector: &Reconnector<Attempt, Conn>,
    result: Output,
    step: Step<Input, Output>,
)
    requires
        call_ensures(
            Reconnector::<Attempt, Conn>::reconnect::<Input, Output>,
            (reconnector, result),
            step,
        ),
    ensures
        reconnector@ is Closed ==> step == Step::<Input, Output>::Done(result),
        !(reconnector@ is Closed) ==> step == Step::<Input, Output>::Reconnect(result),
{
}

/// What an attempt comes to decides how an operation goes on: the connection that it brings is the
/// one in hand and is used; while it goes on there is nothing yet; if it failed, there is nothing
/// yet either, and a new attempt is started. In the last two cases what is in hand stays.
pub proof fn law_attempts_decide_how_operations_go_on<Attempt, Conn, Input, Output>(
    reconnector: &mut Reconnector<Attempt, Conn>,
    reply: ConnectReply<Conn>,
    input: Input,
    blocked: Output,
    step: Step<Input, Output>,
)
    requires
        call_ensures(
            Reconnector::<Attempt, Conn>::finish_connect::<Input, Output>,
            (reconnector, reply, input, blocked),
            step,
        ),
        old(reconnector)@ is Connecting,
    ensures
        reply matches ConnectReply::Ready(conn) ==> {
            &&& final(reconnector)@ == ConnState::<Attempt, Conn>::Active(conn)
            &&& step == Step::<Input, Output>::Use(input)
        },
        reply is NotReady ==> {
            &&& final(reconnector)@ == old(reconnector)@
            &&& step == Step::<Input, Output>::Done(blocked)
        },
        reply is Failed ==> {
            &&& final(reconnector)@ == old(reconnector)@
            &&& step == Step::<Input, Output>::Reconnect(blocked)
        },
{
}

/// While a connection is being set up there is no event to offer.
pub proof fn law_no_events_before_the_connection_is_up<Attempt, Conn>(
    reconnector: &mut Reconnector<Attempt, Conn>,
    reply: ConnectReply<Conn>,
    step: Step<(), Poll<Option<Event>, Error>>,
)
    requires
        call_ensures(
            Reconnector::<Attempt, Conn>::poll_connected,
            (reconnector, reply),
            step,
        ),
        old(reconnector)@ is Connecting,
    ensures
        reply matches ConnectReply::Ready(conn) ==> {
            &&& final(reconnector)@ == ConnState::<Attempt, Conn>::Active(conn)
            &&& step is Use
        },
        !(reply is Ready) ==> final(reconnector)@ == old(reconnector)@,
        reply is NotReady ==> step == Step::<(), Poll<Option<Event>, Error>>::Done(
            Ok(Async::NotReady),
        ),
        reply is Failed ==> step == Step::<(), Poll<Option<Event>, Error>>::Reconnect(
            Ok(Async::NotReady),
        ),
{
}

/// While a connection is being set up no flush is through.
pub proof fn law_no_flush_before_the_connection_is_up<Attempt, Conn>(
    reconnector: &mut Reconnector<Attempt, Conn>,
    reply: ConnectReply<Conn>,
    step: Step<(), Poll<(), Error>>,
)
    requires
        call_ensures(
            Reconnector::<Attempt, Conn>::poll_complete_connected,
            (reconnector, reply),
            step,
        ),
        old(reconnector)@ is Connecting,
    ensures
        reply matches ConnectReply::Ready(conn) ==> {
            &&& final(reconnector)@ == ConnState::<Attempt, Conn>::Active(conn)
            &&& step is Use
        },
        !(reply is Ready) ==> final(reconnector)@ == old(reconnector)@,
        reply is NotReady ==> step == Step::<(), Poll<(), Error>>::Done(Ok(Async::NotReady)),
        reply is Failed ==> step == Step::<(), Poll<(), Error>>::Reconnect(Ok(Async::NotReady)),
{
}

/// While a connection is being set up every item is handed back, just as it is; none is lost.
pub proof fn law_items_are_handed_back_before_the_connection_is_up<Attempt, Conn>(
    reconnector: &mut Reconnector<Attempt, Conn>,
    item: Value,
    reply: ConnectReply<Conn>,
    step: Step<Value, StartSend<Value, Error>>,
)
    requires
        call_ensures(
            Reconnector::<Attempt, Conn>::start_send_connected,
            (reconnector, item, reply),
            step,
        ),
        old(reconnector)@ is Connecting,
    ensures
        reply matches ConnectReply::Ready(conn) ==> {
            &&& final(reconnector)@ == ConnState::<Attempt, Conn>::Active(conn)
            &&& step == Step::<Value, StartSend<Value, Error>>::Use(item)
        },
        !(reply is Ready) ==> final(reconnector)@ == old(reconnector)@,
        reply is NotReady ==> step == Step::<Value, StartSend<Value, Error>>::Done(
            Ok(AsyncSink::NotReady(item)),
        ),
        reply is Failed ==> step == Step::<Value, StartSend<Value, Error>>::Reconnect(
            Ok(AsyncSink::NotReady(item)),
        ),
{
}

/// An attempt that is started is the one in hand, whatever was in hand before, closed or not.
pub proof fn law_started_attempts_are_in_hand<Attempt, Conn>(
    reconnector: &mut Reconnector<Attempt, Conn>,
    attempt: Attempt,
)
    requires
        call_ensures(Reconnector::<Attempt, Conn>::_reconnect, (reconnector, attempt), ()),
    ensures
        final(reconnector)@ == ConnState::<Attempt, Conn>::Connecting(attempt),
{
}

/// The attempt that replaces a lost connection is replaced in turn exactly if it fails at once. The
/// connection that it brings is the one in hand; otherwise the attempt stays in hand.
pub proof fn law_failed_attempts_are_replaced<Attempt, Conn>(
    reconnector: &mut Reconnector<Attempt, Conn>,
    reply: ConnectReply<Conn>,
    again: bool,
)
    requires
        call_ensures(
            Reconnector::<Attempt, Conn>::reconnect_polled,
            (reconnector, reply),
            again,
        ),
        old(reconnector)@ is Connecting,
    ensures
        again <==> reply is Failed,
        reply matches ConnectReply::Ready(conn) ==> final(reconnector)@ == ConnState::<
            Attempt,
            Conn,
        >::Active(conn),
        !(reply is Ready) ==> final(reconnector)@ == old(reconnector)@,
{
}

/// The attempt in hand, and nothing else, is what is lent out for polling, and it stays in hand as
/// the borrower leaves it.
pub proof fn law_the_attempt_in_hand_is_lent_out<Attempt, Conn>(
    reconnector: &mut Reconnector<Attempt, Conn>,
    lent: Option<&mut Attempt>,
)
    requires
        call_ensures(Reconnector::<Attempt, Conn>::attempt_mut, (reconnector,), lent),
    ensures
        lent is Some <==> old(reconnector)@ is Connecting,
        lent matches Some(attempt) ==> {
            &&& old(reconnector)@ == ConnState::<Attempt, Conn>::Connecting(*attempt)
            &&& final(reconnector)@ == ConnState::<Attempt, Conn>::Connecting(*final(attempt))
        },
        lent is None ==> final(reconnector)@ == old(reconnector)@,
{
}

/// The connection in hand, and nothing else, is what is lent out for use, and it stays in hand as
/// the borrower leaves it.
pub proof fn law_the_connection_in_hand_is_lent_out<Attempt, Conn>(
    reconnector: &mut Reconnector<Attempt, Conn>,
    lent: Option<&mut Conn>,
)
    requires
        call_ensures(Reconnector::<Attempt, Conn>::connection_mut, (reconnector,), lent),
    ensures
        lent is Some <==> old(reconnector)@ is Active,
        lent matches Some(conn) ==> {
            &&& old(reconnector)@ == ConnState::<Attempt, Conn>::Active(*conn)
            &&& final(reconnector)@ == ConnState::<Attempt, Conn>::Active(*final(conn))
        },
        lent is None ==> final(reconnector)@ == old(reconnector)@,
{
}

/// Closing leaves nothing in hand. A connection that was up is handed out to be closed, that very
/// one; otherwise the close is through at once.
pub proof fn law_close_hands_out_the_connection<Attempt, Conn>(
    reconnector: &mut Reconnector<Attempt, Conn>,
    step: DisconnectStep<Conn>,
)
    requires
        call_ensures(Reconnector::<Attempt, Conn>::close, (reconnector,), step),
    ensures
        final(reconnector)@ is Closed,
        old(reconnector)@ matches ConnState::Active(conn) ==> step == DisconnectStep::<
            Conn,
        >::CloseConnection(conn),
        !(old(reconnector)@ is Active) ==> step == DisconnectStep::<Conn>::Done(
            Ok(Async::Ready(())),
        ),
{
}

/// A reconnector that has not been started is closed, and a close is through whatever the connection
/// answered to it.
pub proof fn law_reconnectors_begin_and_end_closed<Attempt, Conn>(
    unstarted: Reconnector<Attempt, Conn>,
    reconnector: &Reconnector<Attempt, Conn>,
    reply: Poll<(), Error>,
    result: Poll<(), Error>,
)
    requires
        call_ensures(Reconnector::<Attempt, Conn>::new, (), unstarted),
        call_ensures(Reconnector::<Attempt, Conn>::disconnected, (reconnector, reply), result),
    ensures
        unstarted@ is Closed,
        result == Ok::<Async<()>, Error>(Async::Ready(())),
{
}

} // verus!
