//! The bounded queue between the front ends and the worker.
//!
//! The queue is a channel of tokio. A producer first reserves a slot and then
//! sends into it, so that a message is only built once it has a place.

use tokio::sync::mpsc;
use vstd::prelude::*;

verus! {

/// The sending end of a tokio channel. Nothing is known of the channel behind
/// it: other holders change it at any time.
#[verifier::external_type_specification]
#[verifier::external_body]
#[verifier::reject_recursive_types(T)]
pub struct ExSender<T>(mpsc::Sender<T>);

/// The receiving end of a tokio channel.
#[verifier::external_type_specification]
#[verifier::external_body]
#[verifier::reject_recursive_types(T)]
pub struct ExReceiver<T>(mpsc::Receiver<T>);

/// A slot of a tokio channel, held for one message.
#[verifier::external_type_specification]
#[verifier::external_body]
#[verifier::reject_recursive_types(T)]
pub struct ExOwnedPermit<T>(mpsc::OwnedPermit<T>);

/// What the queue said to a producer that asked for a slot.
#[derive(Debug)]
#[verifier::reject_recursive_types(T)]
pub enum Reservation<T> {
    /// A slot is held for the producer until it sends or lets go of it.
    Granted(mpsc::OwnedPermit<T>),
    /// Every slot is taken.
    Full,
    /// The receiving side has closed the queue or is gone.
    Closed,
}

/// `tokio::sync::mpsc::channel`: a new queue that holds up to `capacity`
/// messages, as its two ends. The channel refuses a capacity of 0 and one
/// above an eighth of `usize::MAX`.
#[verifier::external_body]
pub(crate) fn bounded<T>(capacity: usize) -> (ends: (mpsc::Sender<T>, mpsc::Receiver<T>))
    requires
        0 < capacity <= usize::MAX / 8,
{
    mpsc::channel(capacity)
}

/// `Sender::clone`: one more producer of the same queue. A sender is nothing
/// but a counted pointer to its channel, and the clone holds a pointer to the
/// same channel, so that it is the sender it was made from, once more.
#[verifier::external_body]
pub(crate) fn another<T>(tx: &mpsc::Sender<T>) -> (producer: mpsc::Sender<T>)
    ensures
        producer == *tx,
{
    tx.clone()
}

/// `Sender::try_reserve_owned`: asks for a slot without waiting. Which answer
/// comes depends on what the other producers and the receiver have done.
#[verifier::external_body]
pub(crate) fn try_reserve<T>(tx: mpsc::Sender<T>) -> (answer: Reservation<T>) {
    match tx.try_reserve_owned() {
        Ok(permit) => Reservation::Granted(permit),
        Err(mpsc::error::TrySendError::Full(_)) => Reservation::Full,
        Err(mpsc::error::TrySendError::Closed(_)) => Reservation::Closed,
    }
}

/// `OwnedPermit::send`: puts `message` into the slot that `permit` holds.
/// This cannot fail; the producer that comes back is let go.
#[verifier::external_body]
pub(crate) fn send_reserved<T>(permit: mpsc::OwnedPermit<T>, message: T) {
    let _ = permit.send(message);
}

/// `Sender::is_closed`: whether the receiving side has closed the queue or is
/// gone, at the moment of the call.
#[verifier::external_body]
pub(crate) fn is_closed<T>(tx: &mpsc::Sender<T>) -> (closed: bool) {
    tx.is_closed()
}

/// `Receiver::close`: from now on no producer is granted a slot; what is
/// queued, and what is sent into slots granted before, can still be taken.
#[verifier::external_body]
pub(crate) fn close<T>(rx: &mut mpsc::Receiver<T>) {
    rx.close()
}

} // verus!
