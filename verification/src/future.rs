//! The answer to a call of the batch service, once it is there.

use crate::error::{BatchError, ServiceError};
use crate::message::{Reply, Rx};
use tokio::sync::oneshot;
use vstd::prelude::*;

verus! {

/// What a look into a response slot found.
#[derive(Debug)]
pub enum SlotRead<T> {
    /// The worker has written this.
    Value(T),
    /// The worker has not written yet.
    Empty,
    /// The worker let go of the slot without writing.
    Abandoned,
}

/// `oneshot::Receiver::try_recv`: looks into the slot without waiting. What
/// it finds depends on what the holder of the writing end has done.
#[verifier::external_body]
fn look<T>(rx: &mut oneshot::Receiver<T>) -> (found: SlotRead<T>) {
    match rx.try_recv() {
        Ok(value) => SlotRead::Value(value),
        Err(oneshot::error::TryRecvError::Empty) => SlotRead::Empty,
        Err(oneshot::error::TryRecvError::Closed) => SlotRead::Abandoned,
    }
}

/// Where a response future stands.
#[derive(Debug)]
#[verifier::reject_recursive_types(P)]
#[verifier::reject_recursive_types(E)]
pub enum ResponseState<P, E> {
    /// The request never reached the queue; this is why.
    Failed(BatchError<E>),
    /// The request is with the worker; the answer comes through this slot.
    Rx(Rx<P, E>),
    /// The answer has been handed out.
    Done,
}

/// The answer to one call of the batch service.
#[derive(Debug)]
#[verifier::reject_recursive_types(P)]
#[verifier::reject_recursive_types(E)]
pub struct ResponseFuture<P, E> {
    state: ResponseState<P, E>,
}

/// What a caller is handed for what was found in its slot: nothing yet while
/// the slot is empty; the response or the error that the worker wrote;
/// and `Dropped` where the worker let go of the slot.
pub open spec fn settled<P, E>(found: SlotRead<Reply<P, E>>) -> Option<Result<P, BatchError<E>>> {
    match found {
        SlotRead::Value(Ok(response)) => Some(Ok(response)),
        SlotRead::Value(Err(error)) => Some(Err(BatchError::Service(error))),
        SlotRead::Empty => None,
        SlotRead::Abandoned => Some(Err(BatchError::Dropped)),
    }
}

impl<P, E> ResponseFuture<P, E> {
    /// Where the future stands.
    pub closed spec fn state(self) -> ResponseState<P, E> {
        self.state
    }

    /// The future of a request that is with the worker.
    pub fn new(rx: Rx<P, E>) -> (future: Self)
        ensures
            future.state() == ResponseState::<P, E>::Rx(rx),
    {
        ResponseFuture { state: ResponseState::Rx(rx) }
    }

    /// The future of a request that never reached the queue.
    pub fn failed(error: BatchError<E>) -> (future: Self)
        ensures
            future.state() == ResponseState::<P, E>::Failed(error),
    {
        ResponseFuture { state: ResponseState::Failed(error) }
    }

    /// Hands out where the future stands, for whoever waits on the slot.
    pub fn into_state(self) -> (state: ResponseState<P, E>)
        ensures
            state == self.state(),
    {
        self.state
    }

    /// Whether the answer has been handed out.
    pub fn is_done(&self) -> (done: bool)
        ensures
            done == (self.state() is Done),
    {
        match &self.state {
            ResponseState::Done => true,
            _ => false,
        }
    }

    /// What a caller is handed for what was found in its slot.
    pub fn settle(found: SlotRead<Reply<P, E>>) -> (answer: Option<Result<P, BatchError<E>>>)
        ensures
            answer == settled(found),
    {
        match found {
            SlotRead::Value(Ok(response)) => Some(Ok(response)),
            SlotRead::Value(Err(error)) => Some(Err(BatchError::Service(error))),
            SlotRead::Empty => None,
            SlotRead::Abandoned => Some(Err(BatchError::Dropped)),
        }
    }

    /// Looks for the answer without waiting. A future that never reached the
    /// queue answers at once with its error; one that is with the worker
    /// answers once the worker has written or let go. The answer is handed out
    /// once: after that the future is done and must not be polled again.
    pub fn poll(&mut self) -> (answer: Option<Result<P, BatchError<E>>>)
        requires
            !(old(self).state() is Done),
        ensures
            old(self).state() matches ResponseState::Failed(error) ==> answer == Some(
                Err::<P, BatchError<E>>(error),
            ),
            old(self).state() is Rx ==> exists|found: SlotRead<Reply<P, E>>|
                answer == #[trigger] settled(found),
            answer is Some <==> final(self).state() is Done,
            answer is None ==> final(self).state() is Rx,
    {
        let mut state = ResponseState::Done;
        std::mem::swap(&mut self.state, &mut state);
        match state {
            ResponseState::Failed(error) => Some(Err(error)),
            ResponseState::Rx(mut rx) => {
                let found = look(&mut rx);
                let answer = Self::settle(found);
                if answer.is_none() {
                    self.state = ResponseState::Rx(rx);
                }
                answer
            },
            ResponseState::Done => None,
        }
    }
}

} // verus!
