//! What holds of every run of the policy, from the moment it is made.

use crate::control::BatchControl;
use crate::error::ServiceError;
use crate::trace::{
    admissible, answers, batches, calls, failed, failure_of, failures, flushes, forwarded,
    is_failure, lemma_filter_map_add, lemma_filter_map_push, lemma_filter_map_short,
    lemma_open_items_push, open_items, reason, relay, replied, replies, requests, run, slots,
    timers,
};
use crate::policy::{Effect, Event, Phase, PolicyModel};
use std::time::Duration;
use vstd::prelude::*;

verus! {

/// How the phase of the policy hangs together with the events it has been
/// handed and the trace it has left.
pub open spec fn coherent<R, S, P, E>(
    max_items: usize,
    max_latency: Duration,
    policy: PolicyModel<S, E>,
    trace: Seq<Effect<R, S, P, E>>,
    events: Seq<Event<R, S, P, E>>,
) -> bool {
    &&& policy.max_items == max_items
    &&& policy.max_latency == max_latency
    &&& policy.wf()
    &&& answers(events).len() <= replies(trace).len()
    &&& forall|i: int|
        0 <= i < answers(events).len() ==> #[trigger] replies(trace)[i] == relay(answers(events)[i])
    &&& replies(trace).len() + (if policy.phase is Forwarding {
        1int
    } else {
        0int
    }) == requests(events).len()
    &&& forwarded(trace).len() <= requests(events).len()
    &&& forwarded(trace) == requests(events).take(forwarded(trace).len() as int)
    &&& forall|i: int| 0 <= i < timers(trace).len() ==> #[trigger] timers(trace)[i] == max_latency
    &&& timers(trace).len() == batches(calls(trace))
    &&& replied(trace).len() == replies(trace).len()
    &&& slots(events).len() == requests(events).len()
    &&& slots(events) == replied(trace) + (match policy.phase {
        Phase::Forwarding { slot, .. } => seq![slot],
        _ => Seq::empty(),
    })
    &&& if failed(policy.phase) {
        &&& failures(trace) == seq![reason(policy.phase)]
        &&& forall|i: int|
            answers(events).len() <= i < replies(trace).len() ==> #[trigger] replies(trace)[i]
                == Err::<P, ServiceError<E>>(reason(policy.phase))
        &&& policy.phase is Stopped ==> trace.len() > 0 && trace.last() == Effect::<
            R,
            S,
            P,
            E,
        >::Halt
    } else {
        &&& failures(trace).len() == 0
        &&& forwarded(trace) == requests(events)
        &&& answers(events).len() == replies(trace).len()
        &&& match policy.phase {
            Phase::Collecting { count } => {
                &&& open_items(calls(trace)) == count
                &&& count >= 1 ==> trace.len() > 0 && trace.last() == (Effect::<
                    R,
                    S,
                    P,
                    E,
                >::Receive { timed: true })
                &&& count == 0 ==> trace.len() == 0 || trace.last() == (Effect::<
                    R,
                    S,
                    P,
                    E,
                >::Receive { timed: false })
            },
            Phase::Forwarding { count, .. } => {
                &&& open_items(calls(trace)) == count
                &&& trace.len() > 0
                &&& trace.last() matches Effect::Call(BatchControl::Item(_))
            },
            Phase::Flushing { .. } => {
                &&& open_items(calls(trace)) == 0
                &&& trace.len() > 0
                &&& trace.last() == Effect::<R, S, P, E>::Call(BatchControl::Flush)
            },
            _ => trace.len() > 0 && trace.last() == Effect::<R, S, P, E>::Halt,
        }
    }
}

/// What each reading of a one-effect trace is.
proof fn lemma_single_effect<R, S, P, E>(effect: Effect<R, S, P, E>)
    ensures
        calls(seq![effect]) == match effect {
            Effect::Call(control) => seq![control],
            _ => Seq::empty(),
        },
        forwarded(seq![effect]) == match effect {
            Effect::Call(BatchControl::Item(request)) => seq![request],
            _ => Seq::empty(),
        },
        replies(seq![effect]) == match effect {
            Effect::Reply(_, reply) => seq![reply],
            _ => Seq::empty(),
        },
        failures(seq![effect]) == match effect {
            Effect::Fail(error) => seq![error],
            _ => Seq::empty(),
        },
        replied(seq![effect]) == match effect {
            Effect::Reply(slot, _) => seq![slot],
            _ => Seq::empty(),
        },
        timers(seq![effect]) == match effect {
            Effect::StartTimer(latency) => seq![latency],
            _ => Seq::empty(),
        },
{
    let one = seq![effect];
    lemma_filter_map_short(
        one,
        |effect: Effect<R, S, P, E>|
            match effect {
                Effect::StartTimer(latency) => Some(latency),
                _ => None,
            },
    );
    lemma_filter_map_short(
        one,
        |effect: Effect<R, S, P, E>|
            match effect {
                Effect::Reply(slot, _) => Some(slot),
                _ => None,
            },
    );
    lemma_filter_map_short(
        one,
        |effect: Effect<R, S, P, E>|
            match effect {
                Effect::Call(control) => Some(control),
                _ => None,
            },
    );
    lemma_filter_map_short(
        one,
        |effect: Effect<R, S, P, E>|
            match effect {
                Effect::Call(BatchControl::Item(request)) => Some(request),
                _ => None,
            },
    );
    lemma_filter_map_short(
        one,
        |effect: Effect<R, S, P, E>|
            match effect {
                Effect::Reply(_, reply) => Some(reply),
                _ => None,
            },
    );
    lemma_filter_map_short(
        one,
        |effect: Effect<R, S, P, E>|
            match effect {
                Effect::Fail(error) => Some(error),
                _ => None,
            },
    );
}

/// Each reading of a trace that is one trace after another is the reading of
/// the first followed by that of the second.
proof fn lemma_trace_add<R, S, P, E>(
    first: Seq<Effect<R, S, P, E>>,
    second: Seq<Effect<R, S, P, E>>,
)
    ensures
        calls(first + second) == calls(first) + calls(second),
        forwarded(first + second) == forwarded(first) + forwarded(second),
        replies(first + second) == replies(first) + replies(second),
        failures(first + second) == failures(first) + failures(second),
        replied(first + second) == replied(first) + replied(second),
        timers(first + second) == timers(first) + timers(second),
{
    lemma_filter_map_add(
        first,
        second,
        |effect: Effect<R, S, P, E>|
            match effect {
                Effect::StartTimer(latency) => Some(latency),
                _ => None,
            },
    );
    lemma_filter_map_add(
        first,
        second,
        |effect: Effect<R, S, P, E>|
            match effect {
                Effect::Reply(slot, _) => Some(slot),
                _ => None,
            },
    );
    lemma_filter_map_add(
        first,
        second,
        |effect: Effect<R, S, P, E>|
            match effect {
                Effect::Call(control) => Some(control),
                _ => None,
            },
    );
    lemma_filter_map_add(
        first,
        second,
        |effect: Effect<R, S, P, E>|
            match effect {
                Effect::Call(BatchControl::Item(request)) => Some(request),
                _ => None,
            },
    );
    lemma_filter_map_add(
        first,
        second,
        |effect: Effect<R, S, P, E>|
            match effect {
                Effect::Reply(_, reply) => Some(reply),
                _ => None,
            },
    );
    lemma_filter_map_add(
        first,
        second,
        |effect: Effect<R, S, P, E>|
            match effect {
                Effect::Fail(error) => Some(error),
                _ => None,
            },
    );
}

/// The readings of the effects of one step, which are three at most.
proof fn lemma_step_effects<R, S, P, E>(effects: Seq<Effect<R, S, P, E>>)
    requires
        effects.len() <= 3,
    ensures
        effects.len() == 0 ==> {
            &&& calls(effects).len() == 0
            &&& forwarded(effects).len() == 0
            &&& replies(effects).len() == 0
            &&& failures(effects).len() == 0
            &&& replied(effects).len() == 0
            &&& timers(effects).len() == 0
        },
        effects.len() == 1 ==> {
            &&& calls(effects) == calls(seq![effects[0]])
            &&& forwarded(effects) == forwarded(seq![effects[0]])
            &&& replies(effects) == replies(seq![effects[0]])
            &&& failures(effects) == failures(seq![effects[0]])
            &&& replied(effects) == replied(seq![effects[0]])
            &&& timers(effects) == timers(seq![effects[0]])
        },
        effects.len() == 2 ==> {
            &&& calls(effects) == calls(seq![effects[0]]) + calls(seq![effects[1]])
            &&& forwarded(effects) == forwarded(seq![effects[0]]) + forwarded(seq![effects[1]])
            &&& replies(effects) == replies(seq![effects[0]]) + replies(seq![effects[1]])
            &&& failures(effects) == failures(seq![effects[0]]) + failures(seq![effects[1]])
            &&& replied(effects) == replied(seq![effects[0]]) + replied(seq![effects[1]])
            &&& timers(effects) == timers(seq![effects[0]]) + timers(seq![effects[1]])
        },
        effects.len() == 3 ==> {
            &&& calls(effects) == calls(seq![effects[0]]) + calls(seq![effects[1]]) + calls(
                seq![effects[2]],
            )
            &&& forwarded(effects) == forwarded(seq![effects[0]]) + forwarded(seq![effects[1]])
                + forwarded(seq![effects[2]])
            &&& replies(effects) == replies(seq![effects[0]]) + replies(seq![effects[1]])
                + replies(seq![effects[2]])
            &&& failures(effects) == failures(seq![effects[0]]) + failures(seq![effects[1]])
                + failures(seq![effects[2]])
            &&& replied(effects) == replied(seq![effects[0]]) + replied(seq![effects[1]])
                + replied(seq![effects[2]])
            &&& timers(effects) == timers(seq![effects[0]]) + timers(seq![effects[1]]) + timers(
                seq![effects[2]],
            )
        },
{
    if effects.len() == 0 {
        assert(effects =~= Seq::empty());
        lemma_trace_add(effects, effects);
        assert(effects + effects =~= effects);
    } else if effects.len() == 1 {
        assert(effects =~= seq![effects[0]]);
    } else if effects.len() == 2 {
        assert(effects =~= seq![effects[0]] + seq![effects[1]]);
        lemma_trace_add(seq![effects[0]], seq![effects[1]]);
    } else {
        assert(effects =~= seq![effects[0]] + seq![effects[1]] + seq![effects[2]]);
        lemma_trace_add(seq![effects[0]], seq![effects[1]]);
        lemma_trace_add(seq![effects[0]] + seq![effects[1]], seq![effects[2]]);
    }
}

/// The requests and answers among events when one more event has come.
proof fn lemma_events_push<R, S, P, E>(events: Seq<Event<R, S, P, E>>)
    requires
        events.len() > 0,
    ensures
        requests(events) == match events.last() {
            Event::Request(request, _) => requests(events.drop_last()).push(request),
            _ => requests(events.drop_last()),
        },
        answers(events) == match events.last() {
            Event::ItemDone(answer) => answers(events.drop_last()).push(answer),
            _ => answers(events.drop_last()),
        },
        slots(events) == match events.last() {
            Event::Request(_, slot) => slots(events.drop_last()).push(slot),
            _ => slots(events.drop_last()),
        },
{
    assert(events =~= events.drop_last().push(events.last()));
    lemma_filter_map_push(
        events.drop_last(),
        events.last(),
        |event: Event<R, S, P, E>|
            match event {
                Event::Request(_, slot) => Some(slot),
                _ => None,
            },
    );
    lemma_filter_map_push(
        events.drop_last(),
        events.last(),
        |event: Event<R, S, P, E>|
            match event {
                Event::Request(request, _) => Some(request),
                _ => None,
            },
    );
    lemma_filter_map_push(
        events.drop_last(),
        events.last(),
        |event: Event<R, S, P, E>|
            match event {
                Event::ItemDone(answer) => Some(answer),
                _ => None,
            },
    );
}

/// One step keeps the policy coherent with its events and its trace.
proof fn lemma_step_coherent<R, S, P, E>(
    max_items: usize,
    max_latency: Duration,
    policy: PolicyModel<S, E>,
    trace: Seq<Effect<R, S, P, E>>,
    events: Seq<Event<R, S, P, E>>,
)
    requires
        events.len() > 0,
        coherent(max_items, max_latency, policy, trace, events.drop_last()),
        policy.expects(events.last()),
    ensures
        coherent(
            max_items,
            max_latency,
            policy.step(events.last()).0,
            trace + policy.step(events.last()).1,
            events,
        ),
{
    let event = events.last();
    let next = policy.step(event).0;
    let effects = policy.step(event).1;
    let after = trace + effects;
    let earlier = events.drop_last();
    lemma_events_push(events);
    lemma_trace_add(trace, effects);
    lemma_step_effects(effects);
    if effects.len() >= 1 {
        lemma_single_effect(effects[0]);
    }
    if effects.len() >= 2 {
        lemma_single_effect(effects[1]);
    }
    if effects.len() >= 3 {
        lemma_single_effect(effects[2]);
    }
    if calls(effects).len() == 1 {
        assert(calls(trace) + calls(effects) =~= calls(trace).push(calls(effects)[0]));
        lemma_open_items_push(calls(trace), calls(effects)[0]);
    } else {
        assert(calls(trace) + calls(effects) =~= calls(trace));
    }
    assert(forwarded(after) == requests(events).take(forwarded(after).len() as int)) by {
        assert(forwarded(after) =~= requests(events).take(forwarded(after).len() as int));
    }
    assert(slots(events) =~= replied(after) + (match next.phase {
        Phase::Forwarding { slot, .. } => seq![slot],
        _ => Seq::empty(),
    }));
    assert forall|i: int| 0 <= i < timers(after).len() implies #[trigger] timers(after)[i]
        == max_latency by {
        if i < timers(trace).len() {
            assert(timers(after)[i] == timers(trace)[i]);
        }
    }
    assert forall|i: int| 0 <= i < answers(events).len() implies #[trigger] replies(after)[i]
        == relay(answers(events)[i]) by {
        if i < answers(earlier).len() {
            assert(replies(after)[i] == replies(trace)[i]);
        }
    }
    if failed(next.phase) {
        assert(failures(after) =~= seq![reason(next.phase)]);
        assert forall|i: int|
            answers(events).len() <= i < replies(after).len() implies #[trigger] replies(after)[i]
            == Err::<P, ServiceError<E>>(reason(next.phase)) by {
            if i < replies(trace).len() {
                assert(replies(after)[i] == replies(trace)[i]);
            }
        }
    } else {
        assert(forwarded(after) =~= requests(events));
    }
}

/// The policy stays coherent with its events and its trace, whatever it is
/// handed.
pub proof fn lemma_run_coherent<R, S, P, E>(
    max_items: usize,
    max_latency: Duration,
    events: Seq<Event<R, S, P, E>>,
)
    requires
        admissible(PolicyModel::<S, E>::initial(max_items, max_latency), events),
    ensures
        coherent(
            max_items,
            max_latency,
            run(PolicyModel::<S, E>::initial(max_items, max_latency), events).0,
            run(PolicyModel::<S, E>::initial(max_items, max_latency), events).1,
            events,
        ),
    decreases events.len(),
{
    let start = PolicyModel::<S, E>::initial(max_items, max_latency);
    if events.len() == 0 {
        let none = Seq::<Effect<R, S, P, E>>::empty();
        lemma_step_effects(none);
        lemma_filter_map_short(
            events,
            |event: Event<R, S, P, E>|
                match event {
                    Event::Request(request, _) => Some(request),
                    _ => None,
                },
        );
        lemma_filter_map_short(
            events,
            |event: Event<R, S, P, E>|
                match event {
                    Event::ItemDone(answer) => Some(answer),
                    _ => None,
                },
        );
        lemma_filter_map_short(
            events,
            |event: Event<R, S, P, E>|
                match event {
                    Event::Request(_, slot) => Some(slot),
                    _ => None,
                },
        );
        assert(slots(events) =~= replied(none) + Seq::<S>::empty());
        assert(timers(none).len() == 0);
        assert(flushes(calls(none)) == 0);
        assert(calls(none) =~= Seq::empty());
        assert(forwarded(none) =~= requests(events));
        assert(forwarded(none) =~= requests(events).take(0));
        assert(run(start, events).1 == none);
        assert(open_items(calls(none)) == 0);
    } else {
        lemma_run_coherent(max_items, max_latency, events.drop_last());
        let before = run(start, events.drop_last());
        lemma_step_coherent(max_items, max_latency, before.0, before.1, events);
    }
}

/// The call of the service that a step asks for, if it asks for one.
pub open spec fn called<R, S, P, E>(policy: PolicyModel<S, E>, event: Event<R, S, P, E>) -> Option<
    BatchControl<R>,
> {
    match policy.phase {
        Phase::Collecting { count } => match event {
            Event::Request(request, _) => Some(BatchControl::Item(request)),
            Event::DeadlineElapsed => Some(BatchControl::Flush),
            Event::Disconnected => if count == 0 {
                None
            } else {
                Some(BatchControl::Flush)
            },
            _ => None,
        },
        Phase::Forwarding { count, .. } => if event matches Event::ItemDone(Ok(_)) && count
            >= policy.limit() {
            Some(BatchControl::Flush)
        } else {
            None
        },
        _ => None,
    }
}

/// A step adds to the calls of a trace the one call it asks for, or none.
proof fn lemma_step_calls<R, S, P, E>(
    policy: PolicyModel<S, E>,
    trace: Seq<Effect<R, S, P, E>>,
    event: Event<R, S, P, E>,
)
    requires
        policy.expects(event),
    ensures
        calls(trace + policy.step(event).1) == match called(policy, event) {
            Some(control) => calls(trace).push(control),
            None => calls(trace),
        },
        failed(policy.phase) ==> failed(policy.step(event).0.phase) && reason(
            policy.step(event).0.phase,
        ) == reason(policy.phase) && failures(trace + policy.step(event).1) == failures(trace),
        failed(policy.phase) ==> replies(trace + policy.step(event).1) == if event is Request {
            replies(trace).push(Err(reason(policy.phase)))
        } else {
            replies(trace)
        },
{
    let effects = policy.step(event).1;
    lemma_trace_add(trace, effects);
    lemma_step_effects(effects);
    if effects.len() >= 1 {
        lemma_single_effect(effects[0]);
    }
    if effects.len() >= 2 {
        lemma_single_effect(effects[1]);
    }
    if effects.len() >= 3 {
        lemma_single_effect(effects[2]);
    }
    match called(policy, event) {
        Some(control) => {
            assert(calls(trace) + calls(effects) =~= calls(trace).push(control));
        },
        None => {
            assert(calls(trace) + calls(effects) =~= calls(trace));
        },
    }
    if failed(policy.phase) {
        assert(failures(trace) + failures(effects) =~= failures(trace));
        if event is Request {
            assert(replies(trace) + replies(effects) =~= replies(trace).push(
                Err(reason(policy.phase)),
            ));
        } else {
            assert(replies(trace) + replies(effects) =~= replies(trace));
        }
    }
}

/// Every flush among `calls` comes after exactly `limit` items, and every
/// item after fewer.
pub open spec fn batched<R>(calls: Seq<BatchControl<R>>, limit: int) -> bool
    decreases calls.len(),
{
    calls.len() == 0 || (batched(calls.drop_last(), limit) && (calls.last() is Flush
        <==> open_items(calls.drop_last()) == limit))
}

proof fn lemma_batched_at<R>(calls: Seq<BatchControl<R>>, limit: int, j: int)
    requires
        batched(calls, limit),
        0 <= j < calls.len(),
    ensures
        calls[j] is Flush <==> open_items(calls.take(j)) == limit,
    decreases calls.len(),
{
    if j == calls.len() - 1 {
        assert(calls.take(j) =~= calls.drop_last());
    } else {
        assert(calls.drop_last().take(j) =~= calls.take(j));
        lemma_batched_at(calls.drop_last(), limit, j);
    }
}

proof fn lemma_run_batched<R, S, P, E>(
    max_items: usize,
    max_latency: Duration,
    events: Seq<Event<R, S, P, E>>,
)
    requires
        admissible(PolicyModel::<S, E>::initial(max_items, max_latency), events),
        forall|i: int|
            0 <= i < events.len() ==> !(#[trigger] events[i] is DeadlineElapsed) && !(events[i]
                is Disconnected),
    ensures
        batched(
            calls(run(PolicyModel::<S, E>::initial(max_items, max_latency), events).1),
            PolicyModel::<S, E>::initial(max_items, max_latency).limit(),
        ),
    decreases events.len(),
{
    let start = PolicyModel::<S, E>::initial(max_items, max_latency);
    if events.len() == 0 {
        lemma_step_effects(Seq::<Effect<R, S, P, E>>::empty());
    } else {
        let earlier = events.drop_last();
        assert forall|i: int| 0 <= i < earlier.len() implies !(#[trigger] earlier[i]
            is DeadlineElapsed) && !(earlier[i] is Disconnected) by {
            assert(earlier[i] == events[i]);
        }
        lemma_run_batched(max_items, max_latency, earlier);
        lemma_run_coherent(max_items, max_latency, earlier);
        let before = run(start, earlier);
        let event = events.last();
        assert(event == events[events.len() - 1]);
        lemma_step_calls(before.0, before.1, event);
        match called(before.0, event) {
            Some(control) => {
                assert(calls(before.1).push(control).drop_last() =~= calls(before.1));
            },
            None => {},
        }
    }
}

/// Without answers of the service that are errors, the worker never fails.
proof fn lemma_run_unfailed<R, S, P, E>(start: PolicyModel<S, E>, events: Seq<Event<R, S, P, E>>)
    requires
        !failed(start.phase),
        forall|i: int| 0 <= i < events.len() ==> !is_failure(#[trigger] events[i]),
    ensures
        !failed(run(start, events).0.phase),
    decreases events.len(),
{
    if events.len() > 0 {
        let earlier = events.drop_last();
        assert forall|i: int| 0 <= i < earlier.len() implies !is_failure(#[trigger] earlier[i]) by {
            assert(earlier[i] == events[i]);
        }
        lemma_run_unfailed(start, earlier);
        assert(events.last() == events[events.len() - 1]);
    }
}

/// Requests reach the wrapped service in the order in which they were taken
/// from the queue: the items it is called with are the requests so far, up to
/// the first that came after the service had failed.
pub proof fn forwarding_keeps_order<R, S, P, E>(
    max_items: usize,
    max_latency: Duration,
    events: Seq<Event<R, S, P, E>>,
)
    requires
        admissible(PolicyModel::<S, E>::initial(max_items, max_latency), events),
    ensures
        ({
            let end = run(PolicyModel::<S, E>::initial(max_items, max_latency), events);
            &&& forwarded(end.1).is_prefix_of(requests(events))
            &&& !failed(end.0.phase) ==> forwarded(end.1) == requests(events)
            &&& forall|i: int|
                0 <= i < forwarded(end.1).len() ==> #[trigger] forwarded(end.1)[i] == requests(
                    events,
                )[i]
        }),
{
    lemma_run_coherent(max_items, max_latency, events);
    let end = run(PolicyModel::<S, E>::initial(max_items, max_latency), events);
    assert forall|i: int| 0 <= i < forwarded(end.1).len() implies #[trigger] forwarded(end.1)[i]
        == requests(events)[i] by {
        assert(requests(events).take(forwarded(end.1).len() as int)[i] == requests(events)[i]);
    }
}

/// While neither the deadline passes nor the producers go away, the service
/// is called with a flush exactly after every `max_items` items (after each
/// item where `max_items` is 0): a flush follows that many items since the
/// flush before, an item follows fewer, and the worker never waits for a
/// message with a full batch.
pub proof fn batch_closes_at_max_items<R, S, P, E>(
    max_items: usize,
    max_latency: Duration,
    events: Seq<Event<R, S, P, E>>,
)
    requires
        admissible(PolicyModel::<S, E>::initial(max_items, max_latency), events),
        forall|i: int|
            0 <= i < events.len() ==> !(#[trigger] events[i] is DeadlineElapsed) && !(events[i]
                is Disconnected),
    ensures
        ({
            let end = run(PolicyModel::<S, E>::initial(max_items, max_latency), events);
            let made = calls(end.1);
            let limit = if max_items == 0 {
                1
            } else {
                max_items as int
            };
            &&& forall|j: int|
                0 <= j < made.len() ==> (#[trigger] made[j] is Flush <==> open_items(made.take(j))
                    == limit)
            &&& end.0.phase matches Phase::Collecting { count } ==> open_items(made) == count
                && count < limit
        }),
{
    let end = run(PolicyModel::<S, E>::initial(max_items, max_latency), events);
    let made = calls(end.1);
    let limit = PolicyModel::<S, E>::initial(max_items, max_latency).limit();
    lemma_run_coherent(max_items, max_latency, events);
    lemma_run_batched(max_items, max_latency, events);
    assert forall|j: int| 0 <= j < made.len() implies (#[trigger] made[j] is Flush <==> open_items(
        made.take(j),
    ) == limit) by {
        lemma_batched_at(made, limit, j);
    }
}

/// The deadline is armed once for each batch, with its first item and with
/// no other, for `max_latency`; while the batch is open the worker waits for
/// the deadline as well as for messages; and when the deadline passes, the
/// next thing the worker does is to call the service with a flush, however
/// few items the batch holds.
pub proof fn batch_closes_at_deadline<R, S, P, E>(
    max_items: usize,
    max_latency: Duration,
    events: Seq<Event<R, S, P, E>>,
)
    requires
        admissible(PolicyModel::<S, E>::initial(max_items, max_latency), events),
    ensures
        ({
            let end = run(PolicyModel::<S, E>::initial(max_items, max_latency), events);
            &&& timers(end.1).len() == batches(calls(end.1))
            &&& forall|i: int|
                0 <= i < timers(end.1).len() ==> #[trigger] timers(end.1)[i] == max_latency
            &&& end.0.phase matches Phase::Collecting { count } ==> {
                &&& count == open_items(calls(end.1))
                &&& end.0.expects(Event::<R, S, P, E>::DeadlineElapsed) <==> count >= 1
                &&& count >= 1 ==> {
                    &&& end.1.last() == (Effect::<R, S, P, E>::Receive { timed: true })
                    &&& end.0.step(Event::<R, S, P, E>::DeadlineElapsed) == (
                        end.0.at(Phase::Flushing { last: false }),
                        seq![Effect::<R, S, P, E>::Call(BatchControl::Flush)],
                    )
                    &&& forall|request: R, slot: S| #[trigger]
                        end.0.step(Event::<R, S, P, E>::Request(request, slot)).1
                            == seq![Effect::<R, S, P, E>::Call(BatchControl::Item(request))]
                }
                &&& count == 0 ==> {
                    &&& end.1.len() > 0 ==> end.1.last() == (Effect::<R, S, P, E>::Receive {
                        timed: false,
                    })
                    &&& forall|request: R, slot: S| #[trigger]
                        end.0.step(Event::<R, S, P, E>::Request(request, slot)).1 == seq![
                            Effect::<R, S, P, E>::StartTimer(max_latency),
                            Effect::<R, S, P, E>::Call(BatchControl::Item(request)),
                        ]
                }
            }
        }),
{
    lemma_run_coherent(max_items, max_latency, events);
}

/// Every request taken from the queue gets exactly one reply, into its own
/// slot, at the latest with the step that takes in the service's answer to
/// it: the slots written are the slots of the requests, in order, less the
/// one of the request the service is working on, which the policy holds. A
/// request that the service answered gets that answer; one that came after
/// the service had failed gets the error it failed with.
pub proof fn every_request_is_answered_once<R, S, P, E>(
    max_items: usize,
    max_latency: Duration,
    events: Seq<Event<R, S, P, E>>,
)
    requires
        admissible(PolicyModel::<S, E>::initial(max_items, max_latency), events),
    ensures
        ({
            let end = run(PolicyModel::<S, E>::initial(max_items, max_latency), events);
            let written = replies(end.1);
            &&& written.len() == requests(events).len() - if end.0.phase is Forwarding {
                1int
            } else {
                0int
            }
            &&& replied(end.1).len() == written.len()
            &&& slots(events).len() == requests(events).len()
            &&& forall|i: int|
                0 <= i < written.len() ==> #[trigger] replied(end.1)[i] == slots(events)[i]
            &&& end.0.phase matches Phase::Forwarding { slot, .. } ==> slot == slots(
                events,
            ).last()
            &&& answers(events).len() <= written.len()
            &&& !failed(end.0.phase) ==> answers(events).len() == written.len()
            &&& forall|i: int|
                0 <= i < written.len() ==> #[trigger] written[i] == if i < answers(events).len() {
                    relay(answers(events)[i])
                } else {
                    Err(reason(end.0.phase))
                }
        }),
{
    lemma_run_coherent(max_items, max_latency, events);
}

/// Once the service has answered a call with an error (the event at `at`),
/// that error is recorded in the handle, once; the service is not called
/// again; every reply from then on is that error, so that every request taken
/// from the queue has its reply; and the worker ends with that error.
pub proof fn failure_reaches_every_request<R, S, P, E>(
    max_items: usize,
    max_latency: Duration,
    events: Seq<Event<R, S, P, E>>,
    at: int,
)
    requires
        admissible(PolicyModel::<S, E>::initial(max_items, max_latency), events),
        0 <= at < events.len(),
        is_failure(events[at]),
    ensures
        ({
            let start = PolicyModel::<S, E>::initial(max_items, max_latency);
            let before = run(start, events.take(at));
            let end = run(start, events);
            let error = ServiceError::of(failure_of(events[at]));
            &&& !failed(before.0.phase)
            &&& failed(end.0.phase)
            &&& reason(end.0.phase) == error
            &&& failures(end.1) == seq![error]
            &&& calls(end.1) == calls(before.1)
            &&& replies(before.1).len() <= replies(end.1).len()
            &&& forall|i: int|
                replies(before.1).len() <= i < replies(end.1).len() ==> #[trigger] replies(end.1)[i]
                    == Err::<P, ServiceError<E>>(error)
            &&& replies(end.1).len() == requests(events).len()
            &&& end.0.phase is Stopped || end.0.phase is Draining
        }),
    decreases events.len(),
{
    let start = PolicyModel::<S, E>::initial(max_items, max_latency);
    let earlier = events.drop_last();
    let mid = run(start, earlier);
    let end = run(start, events);
    let before = run(start, events.take(at));
    let error = ServiceError::of(failure_of(events[at]));
    lemma_run_coherent(max_items, max_latency, events);
    lemma_run_coherent(max_items, max_latency, earlier);
    lemma_step_calls(mid.0, mid.1, events.last());
    lemma_events_push(events);
    if at == events.len() - 1 {
        assert(events.take(at) =~= earlier);
        assert forall|i: int| replies(before.1).len() <= i < replies(end.1).len() implies #[trigger]
            replies(end.1)[i] == Err::<P, ServiceError<E>>(error) by {
            if i < answers(events).len() {
                assert(replies(end.1)[i] == relay(answers(events)[i]));
            }
        }
    } else {
        assert(earlier.take(at) =~= events.take(at));
        assert(earlier[at] == events[at]);
        failure_reaches_every_request(max_items, max_latency, earlier, at);
        assert forall|i: int| replies(before.1).len() <= i < replies(end.1).len() implies #[trigger]
            replies(end.1)[i] == Err::<P, ServiceError<E>>(error) by {
            if i < replies(mid.1).len() {
                assert(replies(mid.1)[i] == Err::<P, ServiceError<E>>(error));
            }
        }
    }
}

/// When the producers go away and the service has answered no call with an
/// error, the worker records no failure: with no batch open it stops at once;
/// with one open it calls the service with a last flush, and stops cleanly
/// when that is answered.
pub proof fn shutdown_is_clean<R, S, P, E>(
    max_items: usize,
    max_latency: Duration,
    events: Seq<Event<R, S, P, E>>,
)
    requires
        admissible(PolicyModel::<S, E>::initial(max_items, max_latency), events),
        events.len() > 0,
        events.last() is Disconnected,
        forall|i: int| 0 <= i < events.len() ==> !is_failure(#[trigger] events[i]),
    ensures
        ({
            let start = PolicyModel::<S, E>::initial(max_items, max_latency);
            let before = run(start, events.drop_last());
            let end = run(start, events);
            &&& failures(end.1).len() == 0
            &&& before.0.phase is Collecting
            &&& open_items(calls(before.1)) == 0 ==> {
                &&& end.0.phase == Phase::<S, E>::Stopped(None)
                &&& end.1 == before.1.push(Effect::Halt)
            }
            &&& open_items(calls(before.1)) > 0 ==> {
                &&& end.0.phase == (Phase::<S, E>::Flushing { last: true })
                &&& end.1 == before.1.push(Effect::Call(BatchControl::Flush))
                &&& end.0.step(Event::<R, S, P, E>::FlushDone(Ok(()))) == (
                    end.0.at(Phase::Stopped(None)),
                    seq![Effect::<R, S, P, E>::Halt],
                )
            }
        }),
{
    let start = PolicyModel::<S, E>::initial(max_items, max_latency);
    let earlier = events.drop_last();
    let before = run(start, earlier);
    let end = run(start, events);
    lemma_run_coherent(max_items, max_latency, events);
    lemma_run_coherent(max_items, max_latency, earlier);
    lemma_run_unfailed(start, events);
    assert forall|i: int| 0 <= i < earlier.len() implies !is_failure(#[trigger] earlier[i]) by {
        assert(earlier[i] == events[i]);
    }
    lemma_run_unfailed(start, earlier);
    let effects = before.0.step(events.last()).1;
    assert(before.1 + effects =~= before.1.push(effects[0]));
}

} // verus!
