//! Request batching in front of a service.
//!
//! A [`service::Batch`] is what callers hold: it reserves a slot of a bounded
//! queue, sends each request with a slot for its answer, and hands back a
//! [`future::ResponseFuture`]. Behind the queue one [`worker::Worker`] owns
//! the wrapped service. Its [`policy::Policy`] groups the requests into
//! batches by count and by time and tells the service where a batch ends with
//! [`control::BatchControl::Flush`]; an error of the service ends the session
//! and reaches every caller through the [`handle::Handle`]. What holds of every
//! run of the policy is proved in [`guarantees`].
//!
//! The remaining modules hold small value types that are sent as requests.

pub mod bctv14;
pub mod control;
pub mod error;
pub mod future;
pub mod guarantees;
pub mod handle;
pub mod message;
pub mod notes;
pub mod policy;
pub mod queue;
pub mod request;
pub mod service;
pub mod trace;
pub mod worker;
