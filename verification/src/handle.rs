//! How the front ends learn why the worker stopped.

use crate::error::{share, BatchError, ServiceError};
use std::sync::Arc;
use std::sync::OnceLock;
use vstd::prelude::*;

verus! {

/// `OnceLock` of std: a cell that can be written once. Nothing is known of
/// what one holds.
#[verifier::external_type_specification]
#[verifier::external_body]
#[verifier::reject_recursive_types(T)]
pub struct ExOnceLock<T>(OnceLock<T>);

/// `OnceLock::new` of std: an empty cell.
#[verifier::external_body]
fn empty_cell<T>() -> (cell: OnceLock<T>) {
    OnceLock::new()
}

/// `OnceLock::set` of std: fills the cell if it is empty. Whether it was
/// depends on who else holds the cell.
#[verifier::external_body]
fn fill<T>(cell: &OnceLock<T>, value: T) -> (filled: bool) {
    cell.set(value).is_ok()
}

/// `OnceLock::get` of std: what the cell holds at the moment of the call.
#[verifier::external_body]
fn peek<T>(cell: &OnceLock<T>) -> (held: Option<&T>) {
    cell.get()
}

/// A cell, shared by the worker and every front end, that is empty until the
/// worker records the error it stops on, and never changes after that.
#[derive(Debug)]
#[verifier::reject_recursive_types(E)]
pub struct Handle<E> {
    inner: Arc<OnceLock<ServiceError<E>>>,
}

/// The error for a caller that finds the queue closed, given what the handle
/// holds: the recorded error of the service, or `Closed` where the worker went
/// without recording one.
pub open spec fn error_on_closed<E>(recorded: Option<ServiceError<E>>) -> BatchError<E> {
    match recorded {
        Some(error) => BatchError::Service(error),
        None => BatchError::Closed,
    }
}

impl<E> Handle<E> {
    /// A handle with nothing recorded. The cell behind it is shared and
    /// changes under the eyes of its holders, so no contract speaks of what it
    /// holds: a caller learns that by asking, with `recorded`.
    pub fn new() -> (handle: Self) {
        Handle { inner: Arc::new(empty_cell()) }
    }

    /// Records `error` as the reason the worker stops, unless one is recorded
    /// already. Returns whether it was this one that got recorded, which
    /// depends on what the other holders of the cell have done before.
    pub fn record(&self, error: ServiceError<E>) -> (recorded: bool) {
        fill(&self.inner, error)
    }

    /// What is recorded at the moment of the call: nothing, or a share of the
    /// error that some holder of the cell has recorded. Which of the two
    /// depends on what the holders have done before.
    pub fn recorded(&self) -> (held: Option<ServiceError<E>>) {
        match peek(&self.inner) {
            Some(error) => Some(error.clone()),
            None => None,
        }
    }

    /// The error for a caller that finds the queue closed, given what the
    /// handle was found to hold.
    pub fn closed_with(recorded: Option<ServiceError<E>>) -> (error: BatchError<E>)
        ensures
            error == error_on_closed(recorded),
    {
        match recorded {
            Some(error) => BatchError::Service(error),
            None => BatchError::Closed,
        }
    }

    /// The error for a caller that finds the queue closed: the one recorded,
    /// or `Closed` if none is.
    pub fn get_error_on_closed(&self) -> (error: BatchError<E>)
        ensures
            exists|recorded: Option<ServiceError<E>>| error == #[trigger] error_on_closed(recorded),
            !(error is Dropped),
    {
        let recorded = self.recorded();
        Self::closed_with(recorded)
    }
}

impl<E> Clone for Handle<E> {
    /// One more handle on the same cell.
    fn clone(&self) -> (copy: Self)
        ensures
            copy == *self,
    {
        Handle { inner: share(&self.inner) }
    }
}

} // verus!
