//! A sink that folds the items it is given into a state and passes that state on.
//!
//! The upstream sink is polled by the caller: each method that needs it returns what to do with
//! it, and a further method takes the upstream's answer.

use std::marker::PhantomData;
use vstd::prelude::*;

use crate::poll::{Async, AsyncSink, Poll, StartSend};

verus! {

/// Folds items, one after another, into successive versions of a state.
///
/// This is a function with memory: what an item is turned into may depend on the items before it.
pub trait Transform<Item, State, E>: Sized {
    /// Whether applying `item` to `before` may leave `after` behind and return `result`. A fold that
    /// promises nothing leaves this as it is.
    open spec fn applied(
        before: Self,
        item: Item,
        after: Self,
        result: Result<State, E>,
    ) -> bool {
        true
    }

    /// Folds in one more item, and returns the new version of the state.
    fn apply(&mut self, item: Item) -> (result: Result<State, E>)
        ensures
            Self::applied(*old(self), item, *final(self), result),
    ;
}

/// A sink that applies incoming items to a state, updating a state, and propagating that state
/// to the upstream sink. If the upstream sink rejects the send, this sink will retry sending only
/// the most recent state version when the upstream unblocks.
///
/// This sink never returns `AsyncSink::NotReady` from `start_send`.
pub struct StateUpdateSink<State, Item, E, Func, Upstream> {
    current_state: Option<State>,
    upstream: Upstream,
    transform: Func,
    phantom: PhantomData<(Item, E)>,
}

/// What a flush of the sink asks of the caller next.
pub enum FlushStep<State, E> {
    /// Offer this state to the upstream sink, and pass its answer to `sent`.
    Send(State),
    /// Flush the upstream sink; what it answers is the result of the flush.
    PollUpstream,
    /// The flush is over, with this result.
    Done(Poll<(), E>),
}

/// What closing the sink asks of the caller next.
pub enum CloseStep<E> {
    /// Flush this sink with `poll_complete`, and pass the result to `flushed`.
    PollComplete,
    /// Close the upstream sink; what it answers is the result of the close.
    CloseUpstream,
    /// The close is over, with this result.
    Done(Poll<(), E>),
}

/// The version that waits to be sent, once the upstream sink has answered an offer.
pub open spec fn pending_after_send<State, E>(
    pending: Option<State>,
    reply: StartSend<State, E>,
) -> Option<State> {
    match reply {
        Ok(AsyncSink::NotReady(state)) => Some(state),
        _ => pending,
    }
}

/// How a close begins: a version that waits is flushed first.
pub open spec fn close_begun<State, E>(pending: Option<State>) -> CloseStep<E> {
    if pending is Some {
        CloseStep::PollComplete
    } else {
        CloseStep::CloseUpstream
    }
}

/// How a close goes on once the sink was flushed with this result. It is held up while the flush
/// is not through, and while a version still waits that the upstream sink did not take.
pub open spec fn close_flushed<State, E>(
    pending: Option<State>,
    result: Poll<(), E>,
) -> CloseStep<E> {
    if result is Ok && (result->Ok_0 is NotReady || pending is Some) {
        CloseStep::Done(Ok(Async::NotReady))
    } else {
        CloseStep::CloseUpstream
    }
}

impl<State, Item, E, Func, Upstream> StateUpdateSink<State, Item, E, Func, Upstream> {
    /// The version of the state that has yet to be sent, if there is one.
    pub closed spec fn pending(&self) -> Option<State> {
        self.current_state
    }

    /// The sink that states are passed on to.
    pub closed spec fn upstream(&self) -> Upstream {
        self.upstream
    }

    /// The fold, with all that it remembers of the items so far.
    pub closed spec fn transform(&self) -> Func {
        self.transform
    }

    /// The upstream sink, for the caller to poll.
    pub fn upstream_mut(&mut self) -> (upstream: &mut Upstream)
        ensures
            *upstream == old(self).upstream(),
            final(self).upstream() == *final(upstream),
            final(self).pending() == old(self).pending(),
            final(self).transform() == old(self).transform(),
    {
        &mut self.upstream
    }
}

impl<State, Item, E, Func: Transform<Item, State, E>, Upstream> StateUpdateSink<
    State,
    Item,
    E,
    Func,
    Upstream,
> {
    /// A sink in front of `upstream` that has seen no item yet.
    pub fn new(upstream: Upstream, func: Func) -> (sink: Self)
        ensures
            sink.pending() is None,
            sink.upstream() == upstream,
            sink.transform() == func,
    {
        StateUpdateSink { current_state: None, upstream, transform: func, phantom: PhantomData }
    }

    /// Folds an item into the state. The new version replaces any that has not been sent yet.
    pub fn start_send(&mut self, item: Item) -> (outcome: StartSend<Item, E>)
        ensures
            match outcome {
                Ok(accepted) => {
                    &&& accepted is Ready
                    &&& final(self).pending() matches Some(state)
                    &&& final(self).pending() == pending_after_act::<State, E>(
                        old(self).pending(),
                        SinkAct::Update(state),
                    )
                    &&& Func::applied(
                        old(self).transform(),
                        item,
                        final(self).transform(),
                        Ok(state),
                    )
                },
                Err(e) => {
                    &&& final(self).pending() == old(self).pending()
                    &&& Func::applied(
                        old(self).transform(),
                        item,
                        final(self).transform(),
                        Err(e),
                    )
                },
            },
            final(self).upstream() == old(self).upstream(),
    {
        match self.transform.apply(item) {
            Ok(state) => {
                self.current_state = Some(state);
                Ok(AsyncSink::Ready)
            },
            Err(e) => Err(e),
        }
    }

    /// Begins a flush: a version that waits is taken out, to be offered to the upstream sink. With
    /// whatever answer `sent` is then given, the two together are one `SinkAct::Flush`.
    pub fn poll_complete(&mut self) -> (step: FlushStep<State, E>)
        ensures
            step == (match old(self).pending() {
                Some(state) => FlushStep::<State, E>::Send(state),
                None => FlushStep::<State, E>::PollUpstream,
            }),
            final(self).pending() is None,
            forall|reply: StartSend<State, E>| #[trigger]
                pending_after_act(old(self).pending(), SinkAct::Flush(reply)) == (
                if step is Send {
                    pending_after_send(final(self).pending(), reply)
                } else {
                    final(self).pending()
                }),
            final(self).transform() == old(self).transform(),
            final(self).upstream() == old(self).upstream(),
    {
        match self.current_state.take() {
            Some(state) => FlushStep::Send(state),
            None => FlushStep::PollUpstream,
        }
    }

    /// Continues a flush with the upstream sink's answer to the state it was offered. A state that
    /// is handed back waits for the next flush; one that fails is lost.
    pub fn sent(&mut self, reply: StartSend<State, E>) -> (step: FlushStep<State, E>)
        ensures
            step == (match reply {
                Ok(_) => FlushStep::<State, E>::PollUpstream,
                Err(e) => FlushStep::<State, E>::Done(Err(e)),
            }),
            final(self).pending() == pending_after_send(old(self).pending(), reply),
            reply matches Ok(AsyncSink::NotReady(state)) ==> final(self).pending() == Some(state),
            !(reply matches Ok(AsyncSink::NotReady(_))) ==> final(self).pending() == old(
                self,
            ).pending(),
            final(self).transform() == old(self).transform(),
            final(self).upstream() == old(self).upstream(),
    {
        match reply {
            Ok(AsyncSink::Ready) => FlushStep::PollUpstream,
            Ok(AsyncSink::NotReady(state)) => {
                self.current_state = Some(state);
                FlushStep::PollUpstream
            },
            Err(e) => FlushStep::Done(Err(e)),
        }
    }

    /// Begins to close the sink: a version that waits is flushed first.
    pub fn close(&self) -> (step: CloseStep<E>)
        ensures
            step == close_begun::<State, E>(self.pending()),
            self.pending() is Some ==> step is PollComplete,
            self.pending() is None ==> step is CloseUpstream,
    {
        if self.current_state.is_some() {
            CloseStep::PollComplete
        } else {
            CloseStep::CloseUpstream
        }
    }

    /// Continues a close with the result of the flush. A flush that is not through holds the close
    /// up, and so does one that leaves a version waiting because the upstream sink rejected it; one
    /// that fails does not.
    pub fn flushed(&self, result: Poll<(), E>) -> (step: CloseStep<E>)
        ensures
            step == close_flushed(self.pending(), result),
            step is CloseUpstream <==> result is Err || (result->Ok_0 is Ready
                && self.pending() is None),
            !(step is CloseUpstream) ==> step == CloseStep::<E>::Done(Ok(Async::NotReady)),
    {
        match result {
            Ok(Async::NotReady) => CloseStep::Done(Ok(Async::NotReady)),
            Ok(Async::Ready(_)) => if self.current_state.is_some() {
                CloseStep::Done(Ok(Async::NotReady))
            } else {
                CloseStep::CloseUpstream
            },
            Err(_) => CloseStep::CloseUpstream,
        }
    }
}

/// The upstream sink is closed only when no version waits to be sent, or when the flush failed:
/// a version that was rejected is never cut off by the close.
pub proof fn law_close_cuts_nothing_off<State, E>(pending: Option<State>, result: Poll<(), E>)
    ensures
        close_begun::<State, E>(pending) is CloseUpstream ==> pending is None,
        close_flushed(pending, result) is CloseUpstream ==> pending is None || result is Err,
{
}

/// A close begins with a flush exactly if a version waits; otherwise the upstream sink is closed at
/// once.
pub proof fn law_close_flushes_what_waits<State, Item, E, Func: Transform<Item, State, E>, Upstream>(
    sink: &StateUpdateSink<State, Item, E, Func, Upstream>,
    step: CloseStep<E>,
)
    requires
        call_ensures(StateUpdateSink::<State, Item, E, Func, Upstream>::close, (sink,), step),
    ensures
        step is PollComplete <==> sink.pending() is Some,
        step is CloseUpstream <==> sink.pending() is None,
{
}

/// A close waits for its flush: one that is not through ends the close as not ready, whether or not
/// a version still waits, and so does one that is through but leaves a version behind. The upstream
/// sink is closed after a flush exactly if the flush is through with nothing waiting, or failed.
pub proof fn law_close_waits_for_its_flush<
    State,
    Item,
    E,
    Func: Transform<Item, State, E>,
    Upstream,
>(
    sink: &StateUpdateSink<State, Item, E, Func, Upstream>,
    result: Poll<(), E>,
    step: CloseStep<E>,
)
    requires
        call_ensures(
            StateUpdateSink::<State, Item, E, Func, Upstream>::flushed,
            (sink, result),
            step,
        ),
    ensures
        result == Ok::<Async<()>, E>(Async::NotReady) ==> step == CloseStep::<E>::Done(
            Ok(Async::NotReady),
        ),
        result is Ok && sink.pending() is Some ==> step == CloseStep::<E>::Done(
            Ok(Async::NotReady),
        ),
        result is Ok && result->Ok_0 is Ready && sink.pending() is None ==> step is CloseUpstream,
        result is Err ==> step is CloseUpstream,
{
}

/// The same of how a close is described: a flush that is not through always ends it as not ready,
/// and the upstream sink is closed exactly if nothing waited, or the flush is through with nothing
/// waiting, or the flush failed.
pub proof fn law_closes_end_alike<State, E>(pending: Option<State>, result: Poll<(), E>)
    ensures
        pending is Some ==> close_begun::<State, E>(pending) is PollComplete,
        pending is None ==> close_begun::<State, E>(pending) is CloseUpstream,
        result == Ok::<Async<()>, E>(Async::NotReady) ==> close_flushed(pending, result)
            == CloseStep::<E>::Done(Ok(Async::NotReady)),
        result is Ok && pending is Some ==> close_flushed(pending, result) == CloseStep::<E>::Done(
            Ok(Async::NotReady),
        ),
        result is Ok && result->Ok_0 is Ready && pending is None ==> close_flushed(
            pending,
            result,
        ) is CloseUpstream,
        result is Err ==> close_flushed(pending, result) is CloseUpstream,
{
}

/// The sink takes every item that its fold takes: the version that the fold makes of it waits from
/// then on, in place of any that waited before. An item that the fold refuses changes nothing of
/// what waits. Neither touches the upstream sink, and no item is ever handed back.
pub proof fn law_every_item_is_folded_in<State, Item, E, Func: Transform<Item, State, E>, Upstream>(
    sink: &mut StateUpdateSink<State, Item, E, Func, Upstream>,
    item: Item,
    outcome: StartSend<Item, E>,
)
    requires
        call_ensures(
            StateUpdateSink::<State, Item, E, Func, Upstream>::start_send,
            (sink, item),
            outcome,
        ),
    ensures
        outcome matches Ok(accepted) ==> {
            &&& accepted is Ready
            &&& final(sink).pending() is Some
            &&& Func::applied(
                old(sink).transform(),
                item,
                final(sink).transform(),
                Ok(final(sink).pending()->0),
            )
        },
        outcome matches Err(e) ==> {
            &&& final(sink).pending() == old(sink).pending()
            &&& Func::applied(old(sink).transform(), item, final(sink).transform(), Err(e))
        },
        final(sink).upstream() == old(sink).upstream(),
{
}

/// A flush offers the version that waits, if one does, and holds it no longer.
pub proof fn law_flush_offers_what_waits<State, Item, E, Func: Transform<Item, State, E>, Upstream>(
    sink: &mut StateUpdateSink<State, Item, E, Func, Upstream>,
    step: FlushStep<State, E>,
)
    requires
        call_ensures(
            StateUpdateSink::<State, Item, E, Func, Upstream>::poll_complete,
            (sink,),
            step,
        ),
    ensures
        old(sink).pending() matches Some(state) ==> step == FlushStep::<State, E>::Send(state),
        old(sink).pending() is None ==> step is PollUpstream,
        final(sink).pending() is None,
        final(sink).transform() == old(sink).transform(),
        final(sink).upstream() == old(sink).upstream(),
{
}

/// A version that the upstream sink hands back waits again, just as it is. With any other answer
/// what waits is as it was. Unless the offer failed the upstream sink is flushed next; if it did,
/// the flush ends with that very error.
pub proof fn law_rejected_versions_wait<State, Item, E, Func: Transform<Item, State, E>, Upstream>(
    sink: &mut StateUpdateSink<State, Item, E, Func, Upstream>,
    reply: StartSend<State, E>,
    step: FlushStep<State, E>,
)
    requires
        call_ensures(
            StateUpdateSink::<State, Item, E, Func, Upstream>::sent,
            (sink, reply),
            step,
        ),
    ensures
        reply matches Ok(AsyncSink::NotReady(state)) ==> final(sink).pending() == Some(state),
        reply is Ok && reply->Ok_0 is Ready ==> final(sink).pending() == old(sink).pending(),
        reply is Err ==> final(sink).pending() == old(sink).pending(),
        reply is Ok ==> step is PollUpstream,
        reply matches Err(e) ==> step == FlushStep::<State, E>::Done(Err(e)),
        final(sink).transform() == old(sink).transform(),
        final(sink).upstream() == old(sink).upstream(),
{
}

/// A new sink holds the upstream sink and the fold that it was made with, and has nothing to send.
pub proof fn law_new_sinks_have_nothing_to_send<
    State,
    Item,
    E,
    Func: Transform<Item, State, E>,
    Upstream,
>(upstream: Upstream, func: Func, sink: StateUpdateSink<State, Item, E, Func, Upstream>)
    requires
        call_ensures(StateUpdateSink::<State, Item, E, Func, Upstream>::new, (upstream, func), sink),
    ensures
        sink.pending() is None,
        sink.upstream() == upstream,
        sink.transform() == func,
{
}

/// The upstream sink is lent out as it is, and kept as the borrower leaves it; what waits and the
/// fold stay.
pub proof fn law_the_upstream_sink_is_lent_out<State, Item, E, Func, Upstream>(
    sink: &mut StateUpdateSink<State, Item, E, Func, Upstream>,
    upstream: &mut Upstream,
)
    requires
        call_ensures(
            StateUpdateSink::<State, Item, E, Func, Upstream>::upstream_mut,
            (sink,),
            upstream,
        ),
    ensures
        *old(upstream) == old(sink).upstream(),
        final(sink).upstream() == *final(upstream),
        final(sink).pending() == old(sink).pending(),
        final(sink).transform() == old(sink).transform(),
{
}

/// One thing that happens to a sink.
pub enum SinkAct<State, E> {
    /// An item is folded in, which makes this version of the state.
    Update(State),
    /// The sink is flushed; if a version waits, the upstream sink answers its offer with this.
    Flush(StartSend<State, E>),
}

/// The version that waits to be sent after a sink that held `pending` goes through `act`.
pub open spec fn pending_after_act<State, E>(
    pending: Option<State>,
    act: SinkAct<State, E>,
) -> Option<State> {
    match act {
        SinkAct::Update(state) => Some(state),
        SinkAct::Flush(reply) => match pending {
            Some(_) => pending_after_send(None, reply),
            None => None,
        },
    }
}

/// Folding in an item always leaves the version that it made waiting. A flush leaves a version
/// waiting only if one waited and was handed back, and then it is the one handed back.
pub proof fn law_acts_decide_what_waits<State, E>(
    pending: Option<State>,
    state: State,
    back: State,
    reply: StartSend<State, E>,
)
    ensures
        pending_after_act::<State, E>(pending, SinkAct::Update(state)) == Some(state),
        pending_after_act::<State, E>(None, SinkAct::Flush(reply)) is None,
        pending_after_act::<State, E>(
            Some(state),
            SinkAct::Flush(Ok(AsyncSink::NotReady(back))),
        ) == Some(back),
        pending_after_act::<State, E>(pending, SinkAct::Flush(Ok(AsyncSink::Ready))) is None,
        reply is Err ==> pending_after_act(pending, SinkAct::Flush(reply)) is None,
{
}

/// The version that waits to be sent after a new sink has gone through `history`.
pub open spec fn pending_after<State, E>(history: Seq<SinkAct<State, E>>) -> Option<State>
    decreases history.len(),
{
    if history.len() == 0 {
        None
    } else {
        pending_after_act(pending_after(history.drop_last()), history.last())
    }
}

/// Whether the upstream sink handed a state back at this point.
pub open spec fn rejected<State, E>(act: SinkAct<State, E>) -> bool {
    act matches SinkAct::Flush(reply) && reply matches Ok(outcome) && outcome is NotReady
}

/// Whether the upstream sink hands back nothing but what it was offered.
pub open spec fn hands_back_offers<State, E>(history: Seq<SinkAct<State, E>>) -> bool {
    forall|k: int|
        0 <= k < history.len() && rejected(#[trigger] history[k]) ==> (pending_after(
            history.take(k),
        ) matches Some(offered) ==> history[k]->Flush_0->Ok_0->NotReady_0 == offered)
}

/// Whether the `k`-th act of `history` made the version `state`, no later one was made, and every
/// offer since then was rejected.
pub open spec fn latest_unsent<State, E>(
    history: Seq<SinkAct<State, E>>,
    k: int,
    state: State,
) -> bool {
    &&& 0 <= k < history.len()
    &&& history[k] == SinkAct::<State, E>::Update(state)
    &&& forall|j: int| k < j < history.len() ==> rejected(#[trigger] history[j])
}

/// At every point a sink holds, to be sent at the next flush, the most recent version of the state
/// and no other: a version waits exactly if it is the last one made and every offer of it so far
/// was rejected.
pub proof fn law_retries_only_the_latest_version<State, E>(
    history: Seq<SinkAct<State, E>>,
    state: State,
)
    requires
        hands_back_offers(history),
    ensures
        pending_after(history) == Some(state) <==> exists|k: int|
            latest_unsent(history, k, state),
    decreases history.len(),
{
    if history.len() > 0 {
        let before = history.drop_last();
        let n = before.len() as int;
        assert forall|k: int|
            0 <= k < before.len() && rejected(#[trigger] before[k]) && pending_after(
                before.take(k),
            ) is Some implies before[k]->Flush_0->Ok_0->NotReady_0 == pending_after(
            before.take(k),
        )->0 by {
            assert(history[k] == before[k]);
            assert(before.take(k) =~= history.take(k));
        }
        law_retries_only_the_latest_version(before, state);
        assert(history.take(n) =~= before);
        match history.last() {
            SinkAct::Update(made) => {
                if made == state {
                    assert(latest_unsent(history, n, state));
                }
                assert forall|k: int| latest_unsent(history, k, state) implies made == state by {
                    if k < n {
                        assert(rejected(history[n]));
                    }
                }
            },
            SinkAct::Flush(reply) => {
                if rejected(history.last()) {
                    assert(pending_after(history) == pending_after(before)) by {
                        assert(rejected(history[n]));
                    }
                    assert forall|k: int| #[trigger] latest_unsent(before, k, state) implies
                        latest_unsent(history, k, state) by {
                        assert forall|j: int| k < j < history.len() implies rejected(
                            #[trigger] history[j],
                        ) by {
                            if j < n {
                                assert(before[j] == history[j]);
                            }
                        }
                    }
                    assert forall|k: int| #[trigger] latest_unsent(history, k, state) implies
                        latest_unsent(before, k, state) by {
                        assert forall|j: int| k < j < before.len() implies rejected(
                            #[trigger] before[j],
                        ) by {
                            assert(before[j] == history[j]);
                        }
                    }
                } else {
                    assert forall|k: int| !latest_unsent(history, k, state) by {
                        if latest_unsent(history, k, state) {
                            if k < n {
                                assert(rejected(history[n]));
                            }
                        }
                    }
                }
            },
        }
    }
}

} // verus!
