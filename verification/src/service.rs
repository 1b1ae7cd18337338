//! The front end of the batch service: what callers hold and call.

use crate::error::{BatchError, ServiceError};
use crate::future::{ResponseFuture, ResponseState};
use crate::handle::{error_on_closed, Handle};
use crate::message::{Message, Tx};
use crate::policy::PolicyModel;
use crate::queue::{another, bounded, is_closed, send_reserved, try_reserve, Reservation};
use crate::worker::Worker;
use std::time::Duration;
use tokio::sync::mpsc;
use vstd::prelude::*;

verus! {

/// What `poll_ready` found.
#[derive(Debug)]
pub enum Readiness<E> {
    /// A slot of the queue is held for the next call through this front end.
    Ready,
    /// The queue is full: try again when the worker has taken a message.
    NotReady,
    /// The worker is gone; this is why.
    Failed(BatchError<E>),
}

/// What a front end that holds no slot makes of the queue's answer to its
/// asking for one: ready with a slot, not ready while the queue is full, and
/// failed, with the error that `recorded` stands for, once the queue is closed.
pub open spec fn readiness_for<T, E>(
    answer: Reservation<T>,
    recorded: Option<ServiceError<E>>,
) -> Readiness<E> {
    match answer {
        Reservation::Granted(_) => Readiness::Ready,
        Reservation::Full => Readiness::NotReady,
        Reservation::Closed => Readiness::Failed(error_on_closed(recorded)),
    }
}

/// What a front end that holds a slot makes of whether the queue was found
/// closed: ready while it is open, and failed, with the error that `recorded`
/// stands for, once it is closed.
pub open spec fn readiness_with_slot<E>(
    closed: bool,
    recorded: Option<ServiceError<E>>,
) -> Readiness<E> {
    if closed {
        Readiness::Failed(error_on_closed(recorded))
    } else {
        Readiness::Ready
    }
}

/// Allows batch processing of requests.
///
/// Every clone shares the queue, the worker behind it and the handle; the
/// slot that one of them has reserved is its own.
#[derive(Debug)]
#[verifier::reject_recursive_types(R)]
#[verifier::reject_recursive_types(P)]
#[verifier::reject_recursive_types(E)]
pub struct Batch<R, P, E> {
    tx: mpsc::Sender<Message<R, P, E>>,
    permit: Option<mpsc::OwnedPermit<Message<R, P, E>>>,
    handle: Handle<E>,
}

/// What `Batch::new` makes: the front end, and what the worker's task runs on.
#[derive(Debug)]
#[verifier::reject_recursive_types(R)]
#[verifier::reject_recursive_types(P)]
#[verifier::reject_recursive_types(E)]
pub struct Parts<R, P, E> {
    /// The front end, for the callers.
    pub service: Batch<R, P, E>,
    /// The worker, for its task.
    pub worker: Worker<P, E>,
    /// The receiving end of the queue, for the worker's task.
    pub queue: mpsc::Receiver<Message<R, P, E>>,
}

impl<R, P, E> Batch<R, P, E> {
    /// Whether a slot of the queue is held for the next call.
    pub closed spec fn reserved(&self) -> bool {
        self.permit is Some
    }

    /// The sending end of the queue that this front end sends into.
    pub closed spec fn queue(&self) -> mpsc::Sender<Message<R, P, E>> {
        self.tx
    }

    /// The handle in which this front end reads why the worker stopped.
    pub closed spec fn shared_handle(&self) -> Handle<E> {
        self.handle
    }

    /// Creates a new `Batch` in front of a queue of one slot, with the worker
    /// that is to take from it. The worker records in the handle that the
    /// front end reads.
    ///
    /// The worker tells the inner service when to flush a batch of requests.
    /// Two parameters control this policy:
    ///
    /// * `max_items` gives the maximum number of items per batch.
    /// * `max_latency` gives the maximum latency for a batch item.
    pub fn new(max_items: usize, max_latency: Duration) -> (parts: Parts<R, P, E>)
        ensures
            !parts.service.reserved(),
            parts.worker.policy() == PolicyModel::<Tx<P, E>, E>::initial(max_items, max_latency),
            parts.worker.shared_handle() == parts.service.shared_handle(),
    {
        let (tx, queue) = bounded(1);
        let handle = Handle::new();
        let worker = Worker::new(max_items, max_latency, handle.clone());
        Parts { service: Batch { tx, permit: None, handle }, worker, queue }
    }

    /// Whether a slot of the queue is held for the next call.
    pub fn is_reserved(&self) -> (held: bool)
        ensures
            held == self.reserved(),
    {
        self.permit.is_some()
    }

    /// One more producer of this front end's queue, for whoever waits for a
    /// slot on its behalf.
    pub fn producer(&self) -> (tx: mpsc::Sender<Message<R, P, E>>)
        ensures
            tx == self.queue(),
    {
        another(&self.tx)
    }

    /// Takes in the queue's answer to this front end's asking for a slot, and
    /// what the handle held when the queue was found closed.
    pub fn take_answer(
        &mut self,
        answer: Reservation<Message<R, P, E>>,
        recorded: Option<ServiceError<E>>,
    ) -> (readiness: Readiness<E>)
        requires
            !old(self).reserved(),
        ensures
            readiness == readiness_for(answer, recorded),
            final(self).reserved() <==> answer is Granted,
            final(self).queue() == old(self).queue(),
            final(self).shared_handle() == old(self).shared_handle(),
    {
        match answer {
            Reservation::Granted(permit) => {
                self.permit = Some(permit);
                Readiness::Ready
            },
            Reservation::Full => Readiness::NotReady,
            Reservation::Closed => Readiness::Failed(Handle::closed_with(recorded)),
        }
    }

    /// Takes in whether the queue was found closed while this front end held
    /// a slot, and what the handle held if it was. The slot of a closed queue
    /// is let go of.
    pub fn check_slot(&mut self, closed: bool, recorded: Option<ServiceError<E>>) -> (readiness:
        Readiness<E>)
        requires
            old(self).reserved(),
        ensures
            readiness == readiness_with_slot(closed, recorded),
            final(self).reserved() <==> !closed,
            final(self).queue() == old(self).queue(),
            final(self).shared_handle() == old(self).shared_handle(),
    {
        if closed {
            self.permit = None;
            Readiness::Failed(Handle::closed_with(recorded))
        } else {
            Readiness::Ready
        }
    }

    /// Tries to reserve a slot of the queue for the next call, without
    /// waiting. A front end is ready once it holds a slot of an open queue,
    /// not ready while the queue is full, and failed once the queue is closed,
    /// whether it held a slot or not.
    pub fn poll_ready(&mut self) -> (readiness: Readiness<E>)
        ensures
            readiness is Ready <==> final(self).reserved(),
            final(self).queue() == old(self).queue(),
            final(self).shared_handle() == old(self).shared_handle(),
            old(self).reserved() ==> exists|closed: bool, recorded: Option<ServiceError<E>>|
                readiness == #[trigger] readiness_with_slot(closed, recorded),
            !old(self).reserved() ==> exists|
                answer: Reservation<Message<R, P, E>>,
                recorded: Option<ServiceError<E>>,
            | readiness == #[trigger] readiness_for(answer, recorded),
    {
        if self.permit.is_some() {
            let closed = is_closed(&self.tx);
            let recorded = if closed {
                self.handle.recorded()
            } else {
                None
            };
            return self.check_slot(closed, recorded);
        }
        let answer = try_reserve(another(&self.tx));
        let recorded = match &answer {
            Reservation::Closed => self.handle.recorded(),
            _ => None,
        };
        self.take_answer(answer, recorded)
    }

    /// Takes in a slot that was reserved for this front end while it waited.
    /// A front end that holds one already lets go of the new one.
    pub fn grant(&mut self, permit: mpsc::OwnedPermit<Message<R, P, E>>)
        ensures
            final(self).reserved(),
            final(self).queue() == old(self).queue(),
            final(self).shared_handle() == old(self).shared_handle(),
    {
        if self.permit.is_none() {
            self.permit = Some(permit);
        }
    }

    /// Uses up the slot that this front end holds, given whether the queue
    /// was found closed and, if it was, what the handle held. Into an open
    /// queue the request is sent, and the future waits on its slot; with a
    /// closed one the request goes nowhere, and the future has failed already.
    pub fn dispatch(
        &mut self,
        request: R,
        closed: bool,
        recorded: Option<ServiceError<E>>,
    ) -> (future: ResponseFuture<P, E>)
        requires
            old(self).reserved(),
        ensures
            !final(self).reserved(),
            final(self).queue() == old(self).queue(),
            final(self).shared_handle() == old(self).shared_handle(),
            closed ==> future.state() == ResponseState::<P, E>::Failed(error_on_closed(recorded)),
            !closed ==> future.state() is Rx,
    {
        let permit = self.permit.take().unwrap();
        if closed {
            ResponseFuture::failed(Handle::closed_with(recorded))
        } else {
            let (message, rx) = Message::new(request);
            send_reserved(permit, message);
            ResponseFuture::new(rx)
        }
    }

    /// Sends `request` to the worker through the slot that `poll_ready`
    /// reserved, and returns the future of its answer. Where the queue has
    /// been closed, the request is not sent and the future has failed already,
    /// with the error of the handle.
    pub fn call(&mut self, request: R) -> (future: ResponseFuture<P, E>)
        requires
            old(self).reserved(),
        ensures
            !final(self).reserved(),
            final(self).queue() == old(self).queue(),
            final(self).shared_handle() == old(self).shared_handle(),
            future.state() is Rx || exists|recorded: Option<ServiceError<E>>|
                future.state() == ResponseState::<P, E>::Failed(
                    #[trigger] error_on_closed(recorded),
                ),
    {
        let closed = is_closed(&self.tx);
        let recorded = if closed {
            self.handle.recorded()
        } else {
            None
        };
        self.dispatch(request, closed, recorded)
    }

    /// What becomes of a request that comes to a front end without a slot,
    /// given the queue's answer to asking for one now and what the handle
    /// held when the queue was found closed. With a slot granted the request
    /// is sent through it; a full queue hands the request back; with a closed
    /// one the request goes nowhere, and the future has failed already.
    pub fn send_with(
        &mut self,
        request: R,
        answer: Reservation<Message<R, P, E>>,
        recorded: Option<ServiceError<E>>,
    ) -> (sent: Result<ResponseFuture<P, E>, R>)
        requires
            !old(self).reserved(),
        ensures
            !final(self).reserved(),
            final(self).queue() == old(self).queue(),
            final(self).shared_handle() == old(self).shared_handle(),
            answer is Full <==> sent is Err,
            answer is Full ==> sent == Err::<ResponseFuture<P, E>, R>(request),
            answer is Granted ==> sent->Ok_0.state() is Rx,
            answer is Closed ==> sent->Ok_0.state() == ResponseState::<P, E>::Failed(
                error_on_closed(recorded),
            ),
    {
        match answer {
            Reservation::Granted(permit) => {
                let (message, rx) = Message::new(request);
                send_reserved(permit, message);
                Ok(ResponseFuture::new(rx))
            },
            Reservation::Full => Err(request),
            Reservation::Closed => Ok(ResponseFuture::failed(Handle::closed_with(recorded))),
        }
    }

    /// `call` for a caller that cannot show that a slot is held. With a slot
    /// this is `call`. Without one the queue is asked for a slot on the spot:
    /// the request is handed back only where the queue is full, which cannot
    /// happen to a caller whose `poll_ready` answered ready.
    pub fn try_call(&mut self, request: R) -> (sent: Result<ResponseFuture<P, E>, R>)
        ensures
            !final(self).reserved(),
            final(self).queue() == old(self).queue(),
            final(self).shared_handle() == old(self).shared_handle(),
            old(self).reserved() ==> sent is Ok,
            sent matches Err(back) ==> back == request,
            sent matches Ok(future) ==> future.state() is Rx || exists|
                recorded: Option<ServiceError<E>>,
            |
                future.state() == ResponseState::<P, E>::Failed(
                    #[trigger] error_on_closed(recorded),
                ),
    {
        if self.permit.is_some() {
            Ok(self.call(request))
        } else {
            let answer = try_reserve(another(&self.tx));
            let recorded = match &answer {
                Reservation::Closed => self.handle.recorded(),
                _ => None,
            };
            self.send_with(request, answer, recorded)
        }
    }
}

/// The queue pushes back through the front end: one that holds no slot is
/// not ready exactly while the queue is full, ready exactly when the queue
/// grants it a slot, and failed exactly when the queue is closed, whatever
/// the handle holds.
pub proof fn full_queue_pushes_back<T, E>(
    answer: Reservation<T>,
    recorded: Option<ServiceError<E>>,
)
    ensures
        readiness_for(answer, recorded) is NotReady <==> answer is Full,
        readiness_for(answer, recorded) is Ready <==> answer is Granted,
        readiness_for(answer, recorded) is Failed <==> answer is Closed,
{
}

/// Once the worker has recorded `error` and closed the queue, every front end
/// that asks whether it is ready is told of that error, with a slot or
/// without, and so is the caller of one that sends: none of them waits.
pub proof fn recorded_failure_meets_every_caller<T, E>(error: ServiceError<E>)
    ensures
        readiness_for(Reservation::<T>::Closed, Some(error)) == Readiness::Failed(
            BatchError::Service(error),
        ),
        readiness_with_slot(true, Some(error)) == Readiness::Failed(BatchError::Service(error)),
        error_on_closed(Some(error)) == BatchError::Service(error),
{
}

impl<R, P, E> Clone for Batch<R, P, E> {
    /// One more front end of the same queue and the same handle, with no slot
    /// of its own yet.
    fn clone(&self) -> (copy: Self)
        ensures
            !copy.reserved(),
            copy.queue() == self.queue(),
            copy.shared_handle() == self.shared_handle(),
    {
        Batch { tx: another(&self.tx), permit: None, handle: self.handle.clone() }
    }
}

} // verus!
