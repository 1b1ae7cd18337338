//! Runs of the policy: the events it is handed one after the other, and the
//! effects it asks for, read as one trace.

use crate::control::BatchControl;
use crate::error::ServiceError;
use crate::policy::{Effect, Event, Phase, PolicyModel};
use std::time::Duration;
use vstd::prelude::*;

verus! {

/// The policy after `events`, and everything it asked for on the way.
pub open spec fn run<R, S, P, E>(start: PolicyModel<S, E>, events: Seq<Event<R, S, P, E>>) -> (
    PolicyModel<S, E>,
    Seq<Effect<R, S, P, E>>,
)
    decreases events.len(),
{
    if events.len() == 0 {
        (start, Seq::empty())
    } else {
        let before = run(start, events.drop_last());
        let last = before.0.step(events.last());
        (last.0, before.1 + last.1)
    }
}

/// Each of `events` is one that the policy could be handed when it came.
pub open spec fn admissible<R, S, P, E>(
    start: PolicyModel<S, E>,
    events: Seq<Event<R, S, P, E>>,
) -> bool
    decreases events.len(),
{
    events.len() == 0 || (admissible(start, events.drop_last()) && run(
        start,
        events.drop_last(),
    ).0.expects(events.last()))
}

/// The calls of the wrapped service that a trace asks for, in order.
pub open spec fn calls<R, S, P, E>(trace: Seq<Effect<R, S, P, E>>) -> Seq<BatchControl<R>> {
    trace.filter_map(
        |effect: Effect<R, S, P, E>|
            match effect {
                Effect::Call(control) => Some(control),
                _ => None,
            },
    )
}

/// The requests that a trace hands to the wrapped service as items, in order.
pub open spec fn forwarded<R, S, P, E>(trace: Seq<Effect<R, S, P, E>>) -> Seq<R> {
    trace.filter_map(
        |effect: Effect<R, S, P, E>|
            match effect {
                Effect::Call(BatchControl::Item(request)) => Some(request),
                _ => None,
            },
    )
}

/// What a trace writes into response slots, in order.
pub open spec fn replies<R, S, P, E>(trace: Seq<Effect<R, S, P, E>>) -> Seq<
    Result<P, ServiceError<E>>,
> {
    trace.filter_map(
        |effect: Effect<R, S, P, E>|
            match effect {
                Effect::Reply(_, reply) => Some(reply),
                _ => None,
            },
    )
}

/// The times for which a trace arms the deadline, in order.
pub open spec fn timers<R, S, P, E>(trace: Seq<Effect<R, S, P, E>>) -> Seq<Duration> {
    trace.filter_map(
        |effect: Effect<R, S, P, E>|
            match effect {
                Effect::StartTimer(latency) => Some(latency),
                _ => None,
            },
    )
}

/// The slots that a trace writes into, in order.
pub open spec fn replied<R, S, P, E>(trace: Seq<Effect<R, S, P, E>>) -> Seq<S> {
    trace.filter_map(
        |effect: Effect<R, S, P, E>|
            match effect {
                Effect::Reply(slot, _) => Some(slot),
                _ => None,
            },
    )
}

/// The errors that a trace records in the handle, in order.
pub open spec fn failures<R, S, P, E>(trace: Seq<Effect<R, S, P, E>>) -> Seq<ServiceError<E>> {
    trace.filter_map(
        |effect: Effect<R, S, P, E>|
            match effect {
                Effect::Fail(error) => Some(error),
                _ => None,
            },
    )
}

/// The requests among `events`, in the order in which they were taken from
/// the queue.
pub open spec fn requests<R, S, P, E>(events: Seq<Event<R, S, P, E>>) -> Seq<R> {
    events.filter_map(
        |event: Event<R, S, P, E>|
            match event {
                Event::Request(request, _) => Some(request),
                _ => None,
            },
    )
}

/// The slots of the requests among `events`, in the same order.
pub open spec fn slots<R, S, P, E>(events: Seq<Event<R, S, P, E>>) -> Seq<S> {
    events.filter_map(
        |event: Event<R, S, P, E>|
            match event {
                Event::Request(_, slot) => Some(slot),
                _ => None,
            },
    )
}

/// The answers of the wrapped service to items among `events`, in order.
pub open spec fn answers<R, S, P, E>(events: Seq<Event<R, S, P, E>>) -> Seq<Result<P, E>> {
    events.filter_map(
        |event: Event<R, S, P, E>|
            match event {
                Event::ItemDone(answer) => Some(answer),
                _ => None,
            },
    )
}

/// What is written into the slot of a request that the service answered with
/// `answer`.
pub open spec fn relay<P, E>(answer: Result<P, E>) -> Result<P, ServiceError<E>> {
    match answer {
        Ok(response) => Ok(response),
        Err(cause) => Err(ServiceError::of(cause)),
    }
}

/// The number of items at the end of `calls` that no flush has followed yet.
pub open spec fn open_items<R>(calls: Seq<BatchControl<R>>) -> nat
    decreases calls.len(),
{
    if calls.len() == 0 {
        0
    } else if calls.last() is Flush {
        0
    } else {
        open_items(calls.drop_last()) + 1
    }
}

/// The number of flushes among `calls`.
pub open spec fn flushes<R>(calls: Seq<BatchControl<R>>) -> nat
    decreases calls.len(),
{
    if calls.len() == 0 {
        0
    } else if calls.last() is Flush {
        flushes(calls.drop_last()) + 1
    } else {
        flushes(calls.drop_last())
    }
}

/// The number of batches that `calls` have opened: one for each flush, and
/// one more if items have come since the last.
pub open spec fn batches<R>(calls: Seq<BatchControl<R>>) -> nat {
    flushes(calls) + if open_items(calls) > 0 {
        1nat
    } else {
        0nat
    }
}

/// Whether the service has failed before the policy reached `phase`.
pub open spec fn failed<S, E>(phase: Phase<S, E>) -> bool {
    phase is Draining || phase matches Phase::Stopped(Some(_))
}

/// The error the policy stopped on or is draining the queue for.
pub open spec fn reason<S, E>(phase: Phase<S, E>) -> ServiceError<E>
    recommends
        failed(phase),
{
    match phase {
        Phase::Draining(error) => error,
        Phase::Stopped(Some(error)) => error,
        _ => arbitrary(),
    }
}

/// Whether `event` is an answer of the service that is an error.
pub open spec fn is_failure<R, S, P, E>(event: Event<R, S, P, E>) -> bool {
    event matches Event::ItemDone(Err(_)) || event matches Event::FlushDone(Err(_))
}

/// The error in an answer of the service that is one.
pub open spec fn failure_of<R, S, P, E>(event: Event<R, S, P, E>) -> E
    recommends
        is_failure(event),
{
    match event {
        Event::ItemDone(Err(cause)) => cause,
        Event::FlushDone(Err(cause)) => cause,
        _ => arbitrary(),
    }
}

/// What `filter_map` keeps of a sequence with one more element at its end.
pub proof fn lemma_filter_map_push<A, B>(s: Seq<A>, a: A, f: spec_fn(A) -> Option<B>)
    ensures
        s.push(a).filter_map(f) == match f(a) {
            Some(b) => s.filter_map(f).push(b),
            None => s.filter_map(f),
        },
{
    assert(s.push(a).drop_last() =~= s);
    assert(s.push(a).last() == a);
    match f(a) {
        Some(b) => {
            assert(s.filter_map(f) + seq![b] =~= s.filter_map(f).push(b));
        },
        None => {},
    }
}

/// What `filter_map` keeps of two sequences in a row is what it keeps of the
/// first, followed by what it keeps of the second.
pub proof fn lemma_filter_map_add<A, B>(s: Seq<A>, t: Seq<A>, f: spec_fn(A) -> Option<B>)
    ensures
        (s + t).filter_map(f) == s.filter_map(f) + t.filter_map(f),
    decreases t.len(),
{
    if t.len() == 0 {
        assert(s + t =~= s);
        assert(s.filter_map(f) + t.filter_map(f) =~= s.filter_map(f));
    } else {
        let front = t.drop_last();
        lemma_filter_map_add(s, front, f);
        assert(s + t =~= (s + front).push(t.last()));
        assert(t =~= front.push(t.last()));
        lemma_filter_map_push(s + front, t.last(), f);
        lemma_filter_map_push(front, t.last(), f);
        match f(t.last()) {
            Some(b) => {
                assert((s.filter_map(f) + front.filter_map(f)).push(b) =~= s.filter_map(f)
                    + front.filter_map(f).push(b));
            },
            None => {},
        }
    }
}

/// What `filter_map` keeps of a sequence of at most three elements.
pub proof fn lemma_filter_map_short<A, B>(s: Seq<A>, f: spec_fn(A) -> Option<B>)
    requires
        s.len() <= 3,
    ensures
        s.len() == 0 ==> s.filter_map(f) == Seq::<B>::empty(),
        s.len() == 1 ==> s.filter_map(f) == kept(f(s[0])),
        s.len() == 2 ==> s.filter_map(f) == kept(f(s[0])) + kept(f(s[1])),
        s.len() == 3 ==> s.filter_map(f) == kept(f(s[0])) + kept(f(s[1])) + kept(f(s[2])),
{
    let none = Seq::<A>::empty();
    if s.len() >= 1 {
        lemma_filter_map_push(none, s[0], f);
        assert(none.push(s[0]).filter_map(f) =~= kept(f(s[0])));
    }
    if s.len() >= 2 {
        lemma_filter_map_push(none.push(s[0]), s[1], f);
        assert(none.push(s[0]).push(s[1]).filter_map(f) =~= kept(f(s[0])) + kept(f(s[1])));
    }
    if s.len() == 3 {
        lemma_filter_map_push(none.push(s[0]).push(s[1]), s[2], f);
        assert(s =~= none.push(s[0]).push(s[1]).push(s[2]));
        assert(s.filter_map(f) =~= kept(f(s[0])) + kept(f(s[1])) + kept(f(s[2])));
    } else if s.len() == 2 {
        assert(s =~= none.push(s[0]).push(s[1]));
    } else if s.len() == 1 {
        assert(s =~= none.push(s[0]));
    }
}

/// The sequence of what `filter_map` keeps of one element.
pub open spec fn kept<B>(image: Option<B>) -> Seq<B> {
    match image {
        Some(b) => seq![b],
        None => Seq::empty(),
    }
}

/// The open items and the flushes of calls with one more call at their end.
pub proof fn lemma_open_items_push<R>(calls: Seq<BatchControl<R>>, control: BatchControl<R>)
    ensures
        open_items(calls.push(control)) == if control is Flush {
            0
        } else {
            open_items(calls) + 1
        },
        flushes(calls.push(control)) == if control is Flush {
            flushes(calls) + 1
        } else {
            flushes(calls)
        },
{
    assert(calls.push(control).drop_last() =~= calls);
}

} // verus!
