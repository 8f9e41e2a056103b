//! The unbounded queues that carry messages between the service, its
//! per-peer sending tasks and the application.
//!
//! Nothing in this file is proved: each item states what is taken on trust
//! about a queue implemented elsewhere.

use futures::channel::mpsc::{UnboundedReceiver, UnboundedSender};
use sc_utils::mpsc::{TracingUnboundedReceiver, TracingUnboundedSender};
use vstd::prelude::*;

verus! {

/// The producing end of the channel between the service and the application
/// (`futures::channel::mpsc::UnboundedSender`), carried as an opaque value.
#[verifier::external_type_specification]
#[verifier::external_body]
#[verifier::reject_recursive_types(T)]
pub struct ExUnboundedSender<T>(UnboundedSender<T>);

/// The consuming end of the channel between the service and the application
/// (`futures::channel::mpsc::UnboundedReceiver`), carried as an opaque value.
#[verifier::external_type_specification]
#[verifier::external_body]
#[verifier::reject_recursive_types(T)]
pub struct ExUnboundedReceiver<T>(UnboundedReceiver<T>);

/// The producing end of a peer's send queue
/// (`sc_utils::mpsc::TracingUnboundedSender`), carried as an opaque value.
#[verifier::external_type_specification]
#[verifier::external_body]
#[verifier::reject_recursive_types(T)]
pub struct ExTracingUnboundedSender<T>(TracingUnboundedSender<T>);

/// The consuming end of a peer's send queue
/// (`sc_utils::mpsc::TracingUnboundedReceiver`), carried as an opaque value.
#[verifier::external_type_specification]
#[verifier::external_body]
#[verifier::reject_recursive_types(T)]
pub struct ExTracingUnboundedReceiver<T>(TracingUnboundedReceiver<T>);

/// Calls `futures::channel::mpsc::unbounded`. Nothing is claimed of the two
/// ends it returns.
#[verifier::external_body]
pub(crate) fn application_channel<T>() -> (ends: (UnboundedSender<T>, UnboundedReceiver<T>)) {
    futures::channel::mpsc::unbounded()
}

/// Calls `UnboundedSender::unbounded_send`. Whether the queue takes the
/// message is not ours to say; claimed is only that a message that was not
/// taken comes back as it was given (`TrySendError::into_inner`).
#[verifier::external_body]
pub(crate) fn hand_over<T>(sender: &UnboundedSender<T>, message: T) -> (outcome: Result<(), T>)
    ensures
        outcome matches Err(returned) ==> returned == message,
{
    match sender.unbounded_send(message) {
        Ok(()) => Ok(()),
        Err(refused) => Err(refused.into_inner()),
    }
}

/// Calls `sc_utils::mpsc::tracing_unbounded` with the queue's name and the
/// length from which the queue warns. Nothing is claimed of the two ends it
/// returns.
#[verifier::external_body]
pub(crate) fn peer_queue<T>(name: &'static str, warn_at: usize) -> (ends: (
    TracingUnboundedSender<T>,
    TracingUnboundedReceiver<T>,
)) {
    sc_utils::mpsc::tracing_unbounded(name, warn_at)
}

/// Calls `TracingUnboundedSender::unbounded_send`. Whether the queue takes
/// the message is not ours to say; claimed is only that a message that was
/// not taken comes back as it was given (`TrySendError::into_inner`).
#[verifier::external_body]
pub(crate) fn enqueue<T>(sender: &TracingUnboundedSender<T>, message: T) -> (outcome: Result<(), T>)
    ensures
        outcome matches Err(returned) ==> returned == message,
{
    match sender.unbounded_send(message) {
        Ok(()) => Ok(()),
        Err(refused) => Err(refused.into_inner()),
    }
}

} // verus!
