//! What travels through the queue: a request with the slot for its answer.

use crate::error::ServiceError;
use crate::policy::Event;
use tokio::sync::oneshot;
use vstd::prelude::*;

verus! {

/// The writing end of a tokio one-shot channel.
#[verifier::external_type_specification]
#[verifier::external_body]
#[verifier::reject_recursive_types(T)]
pub struct ExSlotSender<T>(oneshot::Sender<T>);

/// The reading end of a tokio one-shot channel.
#[verifier::external_type_specification]
#[verifier::external_body]
#[verifier::reject_recursive_types(T)]
pub struct ExSlotReceiver<T>(oneshot::Receiver<T>);

/// What waiting on a one-shot channel ends with when the writing end is let
/// go of. The reading end names it as a future's output.
#[verifier::external_type_specification]
#[verifier::external_body]
pub struct ExRecvError(oneshot::error::RecvError);

/// A span of tracing: carried along, never looked into.
#[verifier::external_type_specification]
#[verifier::external_body]
pub struct ExSpan(tracing::Span);

/// What the worker writes into a response slot.
pub type Reply<P, E> = Result<P, ServiceError<E>>;

/// The writing end of a response slot.
pub type Tx<P, E> = oneshot::Sender<Reply<P, E>>;

/// The reading end of a response slot.
pub type Rx<P, E> = oneshot::Receiver<Reply<P, E>>;

/// A request on its way to the worker.
#[derive(Debug)]
#[verifier::reject_recursive_types(P)]
#[verifier::reject_recursive_types(E)]
pub struct Message<R, P, E> {
    /// What the caller asked for.
    pub request: R,
    /// Where the worker writes the answer, once.
    pub tx: Tx<P, E>,
    /// The span the caller was in, for the worker to enter while it works on
    /// the request.
    pub span: tracing::Span,
}

/// `tokio::sync::oneshot::channel`: a fresh slot for one value, as its
/// writing and its reading end.
#[verifier::external_body]
pub(crate) fn slot<T>() -> (ends: (oneshot::Sender<T>, oneshot::Receiver<T>)) {
    oneshot::channel()
}

/// `tracing::Span::current`: the span that the calling thread is in, which is
/// a disabled one where it is in none.
#[verifier::external_body]
pub(crate) fn current_span() -> (span: tracing::Span) {
    tracing::Span::current()
}

/// `oneshot::Sender::send`: writes `reply` into the slot, for the reading end
/// to find. Returns whether a reading end was still there to find it.
#[verifier::external_body]
pub(crate) fn fill_slot<T>(tx: oneshot::Sender<T>, reply: T) -> (found: bool) {
    tx.send(reply).is_ok()
}

impl<R, P, E> Message<R, P, E> {
    /// Packs `request` with a fresh response slot and the caller's span, and
    /// returns the reading end of the slot beside it.
    pub fn new(request: R) -> (made: (Self, Rx<P, E>))
        ensures
            made.0.request == request,
    {
        let (tx, rx) = slot();
        let span = current_span();
        (Message { request, tx, span }, rx)
    }

    /// The message as the worker's policy takes it in, and the span beside it.
    pub fn into_event(self) -> (parts: (Event<R, Tx<P, E>, P, E>, tracing::Span))
        ensures
            parts.0 == Event::<R, Tx<P, E>, P, E>::Request(self.request, self.tx),
            parts.1 == self.span,
    {
        (Event::Request(self.request, self.tx), self.span)
    }
}

} // verus!
