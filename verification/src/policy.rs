//! The batching policy of the worker, as a state machine.
//!
//! The worker owns the wrapped service and is the only one to call it. What
//! it waits for (the next message, the batch deadline, an answer of the
//! service) is done by whoever drives it; the policy decides. It is handed
//! each thing that happened as an [`Event`] and gives back the [`Effect`]s to
//! carry out, in order. The last effect of every step says what to wait for
//! next.
//!
//! A request comes with the slot for its answer, of a type `S` that the
//! policy never looks into: it keeps the slot while the service works on the
//! request and hands it back with the reply.

use crate::control::BatchControl;
use crate::error::ServiceError;
use std::time::Duration;
use vstd::prelude::*;

verus! {

/// Something that happened and that the worker has to decide on.
#[derive(Debug, PartialEq, Eq)]
pub enum Event<R, S, P, E> {
    /// A message was taken from the queue: its request, and the slot for the
    /// answer.
    Request(R, S),
    /// The queue is empty and no producer is left, or it was closed and has
    /// been drained.
    Disconnected,
    /// The deadline of the open batch has passed.
    DeadlineElapsed,
    /// The service has answered the item it was last called with.
    ItemDone(Result<P, E>),
    /// The service has answered the flush it was last called with.
    FlushDone(Result<(), E>),
}

/// Something the driver has to do for the worker.
#[derive(Debug, PartialEq, Eq)]
pub enum Effect<R, S, P, E> {
    /// Arm the deadline of the batch that opens now: it passes after this long.
    StartTimer(Duration),
    /// Call the service with this, and report its answer.
    Call(BatchControl<R>),
    /// Write the reply into the slot, which is that of the request it answers.
    Reply(S, Result<P, ServiceError<E>>),
    /// Record the error in the handle and close the queue to its producers.
    Fail(ServiceError<E>),
    /// Wait for the next message; if `timed`, also for the deadline.
    Receive { timed: bool },
    /// Stop: the worker is done.
    Halt,
}

/// Where the worker stands.
#[derive(Debug, PartialEq, Eq)]
pub enum Phase<S, E> {
    /// Waiting for a message. `count` items of the open batch have been
    /// answered; the deadline is armed when there is at least one.
    Collecting { count: usize },
    /// The service is working on item number `count` of the open batch;
    /// `slot` is where its answer goes.
    Forwarding { count: usize, slot: S },
    /// The service is working on a flush; `last` when no producer is left.
    Flushing { last: bool },
    /// The service has failed: what is still queued is failed with its error.
    Draining(ServiceError<E>),
    /// Done, cleanly or with the error of the service.
    Stopped(Option<ServiceError<E>>),
}

/// The policy as the contracts speak of it: its two bounds and its phase.
pub struct PolicyModel<S, E> {
    pub max_items: usize,
    pub max_latency: Duration,
    pub phase: Phase<S, E>,
}

impl<S, E> PolicyModel<S, E> {
    /// A policy that has seen nothing yet.
    pub open spec fn initial(max_items: usize, max_latency: Duration) -> Self {
        PolicyModel { max_items, max_latency, phase: Phase::Collecting { count: 0 } }
    }

    /// The number of items that closes a batch: `max_items`, and 1 where that
    /// is 0.
    pub open spec fn limit(self) -> int {
        if self.max_items == 0 {
            1
        } else {
            self.max_items as int
        }
    }

    /// An open batch is never full while the worker waits for more, and the
    /// item in flight is within the limit.
    pub open spec fn wf(self) -> bool {
        match self.phase {
            Phase::Collecting { count } => count < self.limit(),
            Phase::Forwarding { count, .. } => 1 <= count <= self.limit(),
            _ => true,
        }
    }

    /// Whether `event` can happen in this phase, given that the driver did
    /// what the worker last asked for.
    pub open spec fn expects<R, P>(self, event: Event<R, S, P, E>) -> bool {
        match self.phase {
            Phase::Collecting { count } => match event {
                Event::Request(_, _) => true,
                Event::Disconnected => true,
                Event::DeadlineElapsed => count >= 1,
                _ => false,
            },
            Phase::Forwarding { .. } => event is ItemDone,
            Phase::Flushing { .. } => event is FlushDone,
            Phase::Draining(_) => event is Request || event is Disconnected,
            Phase::Stopped(_) => false,
        }
    }

    /// The same policy in another phase.
    pub open spec fn at(self, phase: Phase<S, E>) -> Self {
        PolicyModel { phase, ..self }
    }

    /// The policy after `event`, and the effects it asks for. An event that
    /// the policy does not expect leaves it as it is and asks for nothing.
    pub open spec fn step<R, P>(self, event: Event<R, S, P, E>) -> (
        Self,
        Seq<Effect<R, S, P, E>>,
    ) {
        match self.phase {
            Phase::Collecting { count } => match event {
                Event::Request(request, slot) => (
                    self.at(Phase::Forwarding { count: (count + 1) as usize, slot }),
                    if count == 0 {
                        seq![
                            Effect::StartTimer(self.max_latency),
                            Effect::Call(BatchControl::Item(request)),
                        ]
                    } else {
                        seq![Effect::Call(BatchControl::Item(request))]
                    },
                ),
                Event::DeadlineElapsed => (
                    self.at(Phase::Flushing { last: false }),
                    seq![Effect::Call(BatchControl::Flush)],
                ),
                Event::Disconnected => if count == 0 {
                    (self.at(Phase::Stopped(None)), seq![Effect::Halt])
                } else {
                    (
                        self.at(Phase::Flushing { last: true }),
                        seq![Effect::Call(BatchControl::Flush)],
                    )
                },
                _ => (self, seq![]),
            },
            Phase::Forwarding { count, slot } => match event {
                Event::ItemDone(Ok(response)) => if count >= self.limit() {
                    (
                        self.at(Phase::Flushing { last: false }),
                        seq![Effect::Reply(slot, Ok(response)), Effect::Call(BatchControl::Flush)],
                    )
                } else {
                    (
                        self.at(Phase::Collecting { count }),
                        seq![Effect::Reply(slot, Ok(response)), Effect::Receive { timed: true }],
                    )
                },
                Event::ItemDone(Err(cause)) => (
                    self.at(Phase::Draining(ServiceError::of(cause))),
                    seq![
                        Effect::Fail(ServiceError::of(cause)),
                        Effect::Reply(slot, Err(ServiceError::of(cause))),
                        Effect::Receive { timed: false },
                    ],
                ),
                _ => (self, seq![]),
            },
            Phase::Flushing { last } => match event {
                Event::FlushDone(Ok(_)) => if last {
                    (self.at(Phase::Stopped(None)), seq![Effect::Halt])
                } else {
                    (
                        self.at(Phase::Collecting { count: 0 }),
                        seq![Effect::Receive { timed: false }],
                    )
                },
                Event::FlushDone(Err(cause)) => if last {
                    (
                        self.at(Phase::Stopped(Some(ServiceError::of(cause)))),
                        seq![Effect::Fail(ServiceError::of(cause)), Effect::Halt],
                    )
                } else {
                    (
                        self.at(Phase::Draining(ServiceError::of(cause))),
                        seq![
                            Effect::Fail(ServiceError::of(cause)),
                            Effect::Receive { timed: false },
                        ],
                    )
                },
                _ => (self, seq![]),
            },
            Phase::Draining(error) => match event {
                Event::Request(_, slot) => (
                    self,
                    seq![Effect::Reply(slot, Err(error)), Effect::Receive { timed: false }],
                ),
                Event::Disconnected => (
                    self.at(Phase::Stopped(Some(error))),
                    seq![Effect::Halt],
                ),
                _ => (self, seq![]),
            },
            Phase::Stopped(_) => (self, seq![]),
        }
    }
}

/// The batching policy: the two bounds it was made with, and its phase.
#[derive(Debug)]
pub struct Policy<S, E> {
    max_items: usize,
    max_latency: Duration,
    phase: Phase<S, E>,
}

impl<S, E> View for Policy<S, E> {
    type V = PolicyModel<S, E>;

    closed spec fn view(&self) -> PolicyModel<S, E> {
        PolicyModel { max_items: self.max_items, max_latency: self.max_latency, phase: self.phase }
    }
}

impl<S, E> Policy<S, E> {
    #[verifier::type_invariant]
    spec fn well_formed(self) -> bool {
        self@.wf()
    }

    /// A policy that closes a batch after `max_items` items (after each one
    /// where that is 0), or once `max_latency` has passed since the batch's
    /// first item.
    pub fn new(max_items: usize, max_latency: Duration) -> (policy: Self)
        ensures
            policy@ == PolicyModel::<S, E>::initial(max_items, max_latency),
    {
        Policy { max_items, max_latency, phase: Phase::Collecting { count: 0 } }
    }

    /// Where the policy stands.
    pub fn phase(&self) -> (phase: &Phase<S, E>)
        ensures
            *phase == self@.phase,
    {
        &self.phase
    }

    /// The number of items after which a batch is closed.
    pub fn max_items(&self) -> (limit: usize)
        ensures
            limit == self@.max_items,
    {
        self.max_items
    }

    /// The time after which a batch is closed.
    pub fn max_latency(&self) -> (latency: Duration)
        ensures
            latency == self@.max_latency,
    {
        self.max_latency
    }

    /// Whether `event` can be handed to `step` now.
    pub fn expects<R, P>(&self, event: &Event<R, S, P, E>) -> (yes: bool)
        ensures
            yes == self@.expects(*event),
    {
        match &self.phase {
            Phase::Collecting { count } => match event {
                Event::Request(_, _) => true,
                Event::Disconnected => true,
                Event::DeadlineElapsed => *count >= 1,
                _ => false,
            },
            Phase::Forwarding { .. } => match event {
                Event::ItemDone(_) => true,
                _ => false,
            },
            Phase::Flushing { .. } => match event {
                Event::FlushDone(_) => true,
                _ => false,
            },
            Phase::Draining(_) => match event {
                Event::Request(_, _) => true,
                Event::Disconnected => true,
                _ => false,
            },
            Phase::Stopped(_) => false,
        }
    }

    /// The phase that follows `event` in `phase`, and what is to be done.
    fn decide<R, P>(
        max_items: usize,
        max_latency: Duration,
        phase: Phase<S, E>,
        event: Event<R, S, P, E>,
    ) -> (next: (Phase<S, E>, Vec<Effect<R, S, P, E>>))
        requires
            (PolicyModel { max_items, max_latency, phase }).wf(),
            (PolicyModel { max_items, max_latency, phase }).expects(event),
        ensures
            (PolicyModel { max_items, max_latency, phase: next.0 }) == (PolicyModel {
                max_items,
                max_latency,
                phase,
            }).step(event).0,
            next.1@ == (PolicyModel { max_items, max_latency, phase }).step(event).1,
            (PolicyModel { max_items, max_latency, phase: next.0 }).wf(),
    {
        let mut effects: Vec<Effect<R, S, P, E>> = Vec::new();
        match phase {
            Phase::Collecting { count } => match event {
                Event::Request(request, slot) => {
                    if count == 0 {
                        effects.push(Effect::StartTimer(max_latency));
                    }
                    effects.push(Effect::Call(BatchControl::Item(request)));
                    (Phase::Forwarding { count: count + 1, slot }, effects)
                },
                Event::DeadlineElapsed => {
                    effects.push(Effect::Call(BatchControl::Flush));
                    (Phase::Flushing { last: false }, effects)
                },
                Event::Disconnected => {
                    if count == 0 {
                        effects.push(Effect::Halt);
                        (Phase::Stopped(None), effects)
                    } else {
                        effects.push(Effect::Call(BatchControl::Flush));
                        (Phase::Flushing { last: true }, effects)
                    }
                },
                _ => (Phase::Collecting { count }, effects),
            },
            Phase::Forwarding { count, slot } => match event {
                Event::ItemDone(Ok(response)) => {
                    effects.push(Effect::Reply(slot, Ok(response)));
                    if count >= max_items {
                        effects.push(Effect::Call(BatchControl::Flush));
                        (Phase::Flushing { last: false }, effects)
                    } else {
                        effects.push(Effect::Receive { timed: true });
                        (Phase::Collecting { count }, effects)
                    }
                },
                Event::ItemDone(Err(cause)) => {
                    let error = ServiceError::new(cause);
                    effects.push(Effect::Fail(error.clone()));
                    effects.push(Effect::Reply(slot, Err(error.clone())));
                    effects.push(Effect::Receive { timed: false });
                    (Phase::Draining(error), effects)
                },
                _ => (Phase::Forwarding { count, slot }, effects),
            },
            Phase::Flushing { last } => match event {
                Event::FlushDone(Ok(_)) => {
                    if last {
                        effects.push(Effect::Halt);
                        (Phase::Stopped(None), effects)
                    } else {
                        effects.push(Effect::Receive { timed: false });
                        (Phase::Collecting { count: 0 }, effects)
                    }
                },
                Event::FlushDone(Err(cause)) => {
                    let error = ServiceError::new(cause);
                    effects.push(Effect::Fail(error.clone()));
                    if last {
                        effects.push(Effect::Halt);
                        (Phase::Stopped(Some(error)), effects)
                    } else {
                        effects.push(Effect::Receive { timed: false });
                        (Phase::Draining(error), effects)
                    }
                },
                _ => (Phase::Flushing { last }, effects),
            },
            Phase::Draining(error) => match event {
                Event::Request(_, slot) => {
                    effects.push(Effect::Reply(slot, Err(error.clone())));
                    effects.push(Effect::Receive { timed: false });
                    (Phase::Draining(error), effects)
                },
                Event::Disconnected => {
                    effects.push(Effect::Halt);
                    (Phase::Stopped(Some(error)), effects)
                },
                _ => (Phase::Draining(error), effects),
            },
            Phase::Stopped(reason) => (Phase::Stopped(reason), effects),
        }
    }

    /// Takes in `event` and returns what is to be done, in order.
    pub fn step<R, P>(&mut self, event: Event<R, S, P, E>) -> (effects: Vec<Effect<R, S, P, E>>)
        requires
            old(self)@.expects(event),
        ensures
            final(self)@ == old(self)@.step(event).0,
            effects@ == old(self)@.step(event).1,
            old(self)@.wf(),
            final(self)@.wf(),
    {
        proof {
            use_type_invariant(&*self);
        }
        let mut phase = Phase::Stopped(None);
        std::mem::swap(&mut self.phase, &mut phase);
        let (next, effects) = Self::decide(self.max_items, self.max_latency, phase, event);
        self.phase = next;
        effects
    }

    /// `step` for a caller that cannot show that `event` is due: an event
    /// that is not is handed back, and the policy stays as it is.
    pub fn offer<R, P>(&mut self, event: Event<R, S, P, E>) -> (taken: Result<
        Vec<Effect<R, S, P, E>>,
        Event<R, S, P, E>,
    >)
        ensures
            old(self)@.expects(event) ==> final(self)@ == old(self)@.step(event).0 && taken is Ok
                && taken->Ok_0@ == old(self)@.step(event).1,
            !old(self)@.expects(event) ==> final(self)@ == old(self)@ && taken == Err::<
                Vec<Effect<R, S, P, E>>,
                Event<R, S, P, E>,
            >(event),
    {
        if self.expects(&event) {
            Ok(self.step(event))
        } else {
            Err(event)
        }
    }
}

} // verus!
