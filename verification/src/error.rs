//! The errors a caller of the batch service can be handed.

use std::sync::Arc;
use vstd::prelude::*;

verus! {

/// The failure of the wrapped service, shared by everyone it is reported to.
#[derive(Debug, PartialEq, Eq)]
pub struct ServiceError<E> {
    pub inner: Arc<E>,
}

/// `Arc::clone` of std: the new pointer shares the allocation of the given
/// one, so both point to the same value.
#[verifier::external_body]
pub(crate) fn share<T>(inner: &Arc<T>) -> (shared: Arc<T>)
    ensures
        shared == *inner,
{
    Arc::clone(inner)
}

impl<E> ServiceError<E> {
    /// The error that the service returned.
    pub open spec fn cause(self) -> E {
        *self.inner
    }

    /// The shared form of `cause`.
    pub open spec fn of(cause: E) -> Self {
        ServiceError { inner: Arc::new(cause) }
    }

    /// Wraps what the service returned so that it can be handed to many callers.
    pub fn new(cause: E) -> (error: Self)
        ensures
            error == Self::of(cause),
            error.cause() == cause,
    {
        ServiceError { inner: Arc::new(cause) }
    }
}

impl<E> Clone for ServiceError<E> {
    fn clone(&self) -> (copy: Self)
        ensures
            copy == *self,
    {
        ServiceError { inner: share(&self.inner) }
    }
}

/// Why a request to the batch service was not answered by the wrapped service.
#[derive(Debug, PartialEq, Eq)]
pub enum BatchError<E> {
    /// The wrapped service failed, on this request or on an earlier call.
    Service(ServiceError<E>),
    /// The worker is gone and has left no error behind.
    Closed,
    /// The worker let go of the request before it had answered it.
    Dropped,
}

impl<E> Clone for BatchError<E> {
    fn clone(&self) -> (copy: Self)
        ensures
            copy == *self,
    {
        match self {
            BatchError::Service(error) => BatchError::Service(error.clone()),
            BatchError::Closed => BatchError::Closed,
            BatchError::Dropped => BatchError::Dropped,
        }
    }
}

} // verus!
