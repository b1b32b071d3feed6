//! The sending half of the unbounded queues that carry finished spans to the
//! reporting task and encoded batches to the network task.

use futures::sync::mpsc::{UnboundedReceiver, UnboundedSender};
use vstd::prelude::*;

verus! {

/// Trusted: the type `futures::sync::mpsc::UnboundedSender`, of which
/// nothing is seen.
#[verifier::external_type_specification]
#[verifier::external_body]
#[verifier::reject_recursive_types(T)]
pub struct ExUnboundedSender<T>(UnboundedSender<T>);

/// Trusted: the type `futures::sync::mpsc::UnboundedReceiver`, of which
/// nothing is seen.
#[verifier::external_type_specification]
#[verifier::external_body]
#[verifier::reject_recursive_types(T)]
pub struct ExUnboundedReceiver<T>(UnboundedReceiver<T>);

/// Trusted: `futures::sync::mpsc::unbounded`, the two halves of a new queue
/// without a bound.
#[verifier::external_body]
pub(crate) fn open_queue<T>() -> (halves: (UnboundedSender<T>, UnboundedReceiver<T>)) {
    futures::sync::mpsc::unbounded()
}

/// Trusted: `UnboundedSender::unbounded_send`. The item is pushed onto the
/// queue without blocking; the answer is `false` when the receiving half is
/// gone, in which case the item is dropped. Which of the two happens depends
/// on the other end, so nothing is claimed of the answer.
#[verifier::external_body]
pub(crate) fn enqueue<T>(sender: &UnboundedSender<T>, item: T) -> (accepted: bool) {
    sender.unbounded_send(item).is_ok()
}

/// Trusted: `UnboundedSender::clone`, a further handle on the same queue.
#[verifier::external_body]
pub(crate) fn another_sender<T>(sender: &UnboundedSender<T>) -> (handle: UnboundedSender<T>) {
    sender.clone()
}

} // verus!
