//! The two messages a batch worker sends to the service it wraps.

use vstd::prelude::*;

verus! {

/// What the wrapped service is called with: one request of the open batch,
/// or the marker that closes the batch.
#[derive(Debug, PartialEq, Eq)]
pub enum BatchControl<R> {
    /// A new batch item.
    Item(R),
    /// The current batch should be flushed.
    Flush,
}

impl<R> BatchControl<R> {
    /// Whether this is a batch item rather than the closing marker.
    pub fn is_item(&self) -> (b: bool)
        ensures
            b == (*self is Item),
    {
        match self {
            BatchControl::Item(_) => true,
            BatchControl::Flush => false,
        }
    }

    /// The request of an item, nothing for the closing marker.
    pub fn into_item(self) -> (r: Option<R>)
        ensures
            r == (match self {
                BatchControl::Item(request) => Some(request),
                BatchControl::Flush => None,
            }),
    {
        match self {
            BatchControl::Item(request) => Some(request),
            BatchControl::Flush => None,
        }
    }
}

} // verus!
