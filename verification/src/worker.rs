//! The worker: the one that takes messages from the queue, calls the wrapped
//! service, writes the answers into their slots and records why it stops.
//!
//! What the worker decides is its [`Policy`]. What it does on the spot
//! (write a reply, record the error, close the queue) it does here. What it
//! has to wait for is left to the task that drives it, which is told after
//! every step what comes [`Next`].

use crate::control::BatchControl;
use crate::handle::Handle;
use crate::message::{fill_slot, Message, Tx};
use crate::policy::{Effect, Event, Phase, Policy, PolicyModel};
use crate::queue::close;
use std::time::Duration;
use tokio::sync::mpsc;
use vstd::prelude::*;

verus! {

/// What the task that drives the worker is to do next.
#[derive(Debug, PartialEq, Eq)]
pub enum Next<R> {
    /// Wait for the next message; if `timed`, also for the deadline.
    Receive { timed: bool },
    /// Call the service with `control` and report its answer; before that,
    /// if `arm` holds a time, arm the deadline to pass after it.
    Call { control: BatchControl<R>, arm: Option<Duration> },
    /// Stop: the worker is done.
    Halt,
}

/// What is left to do of `effects` once all that needs no waiting is done,
/// and the time that they last armed the deadline for.
pub open spec fn outlook<R, S, P, E>(effects: Seq<Effect<R, S, P, E>>) -> (
    Next<R>,
    Option<Duration>,
)
    decreases effects.len(),
{
    if effects.len() == 0 {
        (Next::Halt, None)
    } else {
        let before = outlook(effects.drop_last());
        match effects.last() {
            Effect::StartTimer(latency) => (before.0, Some(latency)),
            Effect::Call(control) => (Next::Call { control, arm: before.1 }, before.1),
            Effect::Receive { timed } => (Next::Receive { timed }, before.1),
            Effect::Halt => (Next::Halt, before.1),
            _ => before,
        }
    }
}

/// What is left to do after a step, told by the phase that the step leads
/// to: with an item or a flush at the service, to call it; with a batch open
/// or empty, or with the queue to drain, to wait; and to stop once stopped.
/// The deadline is armed with the first item of a batch.
pub open spec fn upcoming<R, S, P, E>(before: PolicyModel<S, E>, event: Event<R, S, P, E>) -> Next<
    R,
> {
    match before.step(event).0.phase {
        Phase::Forwarding { count, .. } => Next::Call {
            control: BatchControl::Item(event->Request_0),
            arm: if count == 1 {
                Some(before.max_latency)
            } else {
                None
            },
        },
        Phase::Flushing { .. } => Next::Call { control: BatchControl::Flush, arm: None },
        Phase::Collecting { count } => Next::Receive { timed: count >= 1 },
        Phase::Draining(_) => Next::Receive { timed: false },
        Phase::Stopped(_) => Next::Halt,
    }
}

proof fn lemma_outlook_push<R, S, P, E>(
    effects: Seq<Effect<R, S, P, E>>,
    effect: Effect<R, S, P, E>,
)
    ensures
        outlook(effects.push(effect)) == match effect {
            Effect::StartTimer(latency) => (outlook(effects).0, Some(latency)),
            Effect::Call(control) => (
                Next::Call { control, arm: outlook(effects).1 },
                outlook(effects).1,
            ),
            Effect::Receive { timed } => (Next::Receive { timed }, outlook(effects).1),
            Effect::Halt => (Next::Halt, outlook(effects).1),
            _ => outlook(effects),
        },
{
    assert(effects.push(effect).drop_last() =~= effects);
}

/// What the effects of a step leave to do is what the phase it leads to
/// tells.
pub proof fn lemma_outlook_of_step<R, S, P, E>(before: PolicyModel<S, E>, event: Event<R, S, P, E>)
    requires
        before.wf(),
        before.expects(event),
    ensures
        outlook(before.step(event).1).0 == upcoming(before, event),
{
    let effects = before.step(event).1;
    let none = Seq::<Effect<R, S, P, E>>::empty();
    assert(outlook(none) == (Next::<R>::Halt, None::<Duration>));
    if effects.len() >= 1 {
        lemma_outlook_push(none, effects[0]);
    }
    if effects.len() >= 2 {
        lemma_outlook_push(none.push(effects[0]), effects[1]);
    }
    if effects.len() >= 3 {
        lemma_outlook_push(none.push(effects[0]).push(effects[1]), effects[2]);
    }
    if effects.len() == 1 {
        assert(effects =~= none.push(effects[0]));
    } else if effects.len() == 2 {
        assert(effects =~= none.push(effects[0]).push(effects[1]));
    } else if effects.len() == 3 {
        assert(effects =~= none.push(effects[0]).push(effects[1]).push(effects[2]));
    }
}

/// The worker of one batch service.
#[derive(Debug)]
#[verifier::reject_recursive_types(P)]
#[verifier::reject_recursive_types(E)]
pub struct Worker<P, E> {
    policy: Policy<Tx<P, E>, E>,
    handle: Handle<E>,
}

impl<P, E> Worker<P, E> {
    /// The worker's policy, as the contracts speak of it.
    pub closed spec fn policy(&self) -> PolicyModel<Tx<P, E>, E> {
        self.policy@
    }

    /// The handle in which the worker records the error it stops on.
    pub closed spec fn shared_handle(&self) -> Handle<E> {
        self.handle
    }

    /// A worker that has seen nothing yet, which records in `handle`.
    pub fn new(max_items: usize, max_latency: Duration, handle: Handle<E>) -> (worker: Self)
        ensures
            worker.policy() == PolicyModel::<Tx<P, E>, E>::initial(max_items, max_latency),
            worker.shared_handle() == handle,
    {
        Worker { policy: Policy::new(max_items, max_latency), handle }
    }

    /// Where the worker stands.
    pub fn phase(&self) -> (phase: &Phase<Tx<P, E>, E>)
        ensures
            *phase == self.policy().phase,
    {
        self.policy.phase()
    }

    /// The number of items after which the worker closes a batch.
    pub fn max_items(&self) -> (limit: usize)
        ensures
            limit == self.policy().max_items,
    {
        self.policy.max_items()
    }

    /// The time after which the worker closes a batch.
    pub fn max_latency(&self) -> (latency: Duration)
        ensures
            latency == self.policy().max_latency,
    {
        self.policy.max_latency()
    }

    /// Whether `event` can be handed to `advance` now.
    pub fn expects<R>(&self, event: &Event<R, Tx<P, E>, P, E>) -> (yes: bool)
        ensures
            yes == self.policy().expects(*event),
    {
        self.policy.expects(event)
    }

    /// Takes in `event`, does at once what the policy asks for and needs no
    /// waiting (a reply is written into its slot; an error of the service is
    /// recorded in the handle and `queue` is closed), and returns what is
    /// left for the task to do.
    pub fn advance<R>(
        &mut self,
        event: Event<R, Tx<P, E>, P, E>,
        queue: &mut mpsc::Receiver<Message<R, P, E>>,
    ) -> (next: Next<R>)
        requires
            old(self).policy().expects(event),
        ensures
            final(self).policy() == old(self).policy().step(event).0,
            final(self).shared_handle() == old(self).shared_handle(),
            next == upcoming(old(self).policy(), event),
    {
        let mut effects = self.policy.step(event);
        proof {
            lemma_outlook_of_step(old(self).policy(), event);
        }
        let ghost all = effects@;
        let ghost mut done: int = 0;
        let mut next = Next::Halt;
        let mut arm: Option<Duration> = None;
        while effects.len() > 0
            invariant
                self.handle == old(self).handle,
                self.policy@ == old(self).policy().step(event).0,
                0 <= done <= all.len(),
                effects@ == all.skip(done),
                (next, arm) == outlook(all.take(done)),
            decreases effects.len(),
        {
            let effect = effects.remove(0);
            proof {
                assert(effect == all[done]);
                assert(all.take(done + 1).drop_last() =~= all.take(done));
                assert(all.skip(done).remove(0) =~= all.skip(done + 1));
                done = done + 1;
            }
            match effect {
                Effect::StartTimer(latency) => {
                    arm = Some(latency);
                },
                Effect::Call(control) => {
                    next = Next::Call { control, arm };
                },
                Effect::Reply(slot, reply) => {
                    let _ = fill_slot(slot, reply);
                },
                Effect::Fail(error) => {
                    let _ = self.handle.record(error);
                    close(queue);
                },
                Effect::Receive { timed } => {
                    next = Next::Receive { timed };
                },
                Effect::Halt => {
                    next = Next::Halt;
                },
            }
        }
        proof {
            assert(all.take(done) =~= all);
        }
        next
    }

    /// `advance` for a task that cannot show that `event` is due: an event
    /// that is not is handed back, and nothing is done.
    pub fn offer<R>(
        &mut self,
        event: Event<R, Tx<P, E>, P, E>,
        queue: &mut mpsc::Receiver<Message<R, P, E>>,
    ) -> (taken: Result<Next<R>, Event<R, Tx<P, E>, P, E>>)
        ensures
            final(self).shared_handle() == old(self).shared_handle(),
            old(self).policy().expects(event) ==> final(self).policy() == old(
                self,
            ).policy().step(event).0 && taken == Ok::<Next<R>, Event<R, Tx<P, E>, P, E>>(
                upcoming(old(self).policy(), event),
            ),
            !old(self).policy().expects(event) ==> final(self).policy() == old(self).policy()
                && taken == Err::<Next<R>, Event<R, Tx<P, E>, P, E>>(event),
    {
        if self.expects(&event) {
            Ok(self.advance(event, queue))
        } else {
            Err(event)
        }
    }
}

} // verus!
