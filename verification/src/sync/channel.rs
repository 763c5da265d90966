//! Bounded queues and single-use answers between tasks.

use tokio::sync::{mpsc, oneshot, watch};
use vstd::prelude::*;

verus! {

/// Sending half of a bounded queue.
#[verifier::external_type_specification]
#[verifier::external_body]
#[verifier::reject_recursive_types(T)]
pub struct ExSender<T>(tokio::sync::mpsc::Sender<T>);

/// Receiving half of a bounded queue.
#[verifier::external_type_specification]
#[verifier::external_body]
#[verifier::reject_recursive_types(T)]
pub struct ExReceiver<T>(tokio::sync::mpsc::Receiver<T>);

/// A slot reserved in a bounded queue.
#[verifier::external_type_specification]
#[verifier::external_body]
#[verifier::reject_recursive_types(T)]
pub struct ExOwnedPermit<T>(tokio::sync::mpsc::OwnedPermit<T>);

/// Answering half of a single-use exchange.
#[verifier::external_type_specification]
#[verifier::external_body]
#[verifier::reject_recursive_types(T)]
pub struct ExAnswer<T>(tokio::sync::oneshot::Sender<T>);

/// An exchange whose answering half went away without an answer.
#[verifier::external_type_specification]
#[verifier::external_body]
pub struct ExUnanswered(tokio::sync::oneshot::error::RecvError);

/// Waiting half of a single-use exchange.
#[verifier::external_type_specification]
#[verifier::external_body]
#[verifier::reject_recursive_types(T)]
pub struct ExQuestion<T>(tokio::sync::oneshot::Receiver<T>);

/// Writing half of a latest-value cell.
#[verifier::external_type_specification]
#[verifier::external_body]
#[verifier::reject_recursive_types(T)]
pub struct ExCell<T>(tokio::sync::watch::Sender<T>);

/// Reading half of a latest-value cell.
#[verifier::external_type_specification]
#[verifier::external_body]
#[verifier::reject_recursive_types(T)]
pub struct ExWatch<T>(tokio::sync::watch::Receiver<T>);

/// A queue that did not take a value hands it back.
pub enum Refused<T> {
    /// Every slot was taken.
    Full(T),
    /// The receiving half is gone.
    Closed(T),
}

/// `tokio::sync::mpsc::channel`, which panics on a bound of zero and above the
/// permit limit. Nothing is claimed of what the queue holds later: both halves are
/// shared, and the other tasks decide.
#[verifier::external_body]
fn queue<T>(bound: usize) -> (r: (mpsc::Sender<T>, mpsc::Receiver<T>))
    requires
        0 < bound <= crate::sync::semaphore::MAX_PERMITS,
{
    mpsc::channel(bound)
}

/// Both halves are those of one queue that was made with this bound.
pub closed spec fn made_with<T>(
    bound: usize,
    sender: mpsc::Sender<T>,
    receiver: mpsc::Receiver<T>,
) -> bool {
    call_ensures(queue::<T>, (bound,), (sender, receiver))
}

/// Makes a queue with this bound.
pub(crate) fn bounded_queue<T>(bound: usize) -> (r: (mpsc::Sender<T>, mpsc::Receiver<T>))
    requires
        0 < bound <= crate::sync::semaphore::MAX_PERMITS,
    ensures
        made_with(bound, r.0, r.1),
{
    let (sender, receiver) = queue(bound);
    assert(made_with(bound, sender, receiver));
    (sender, receiver)
}

/// `tokio::sync::mpsc::Sender::is_closed`. The receiving half decides.
#[verifier::external_body]
pub(crate) fn is_closed<T>(sender: &mpsc::Sender<T>) -> bool {
    sender.is_closed()
}

/// `tokio::sync::mpsc::Sender::capacity`. The tasks that share the queue decide.
#[verifier::external_body]
pub(crate) fn capacity<T>(sender: &mpsc::Sender<T>) -> usize {
    sender.capacity()
}

/// `tokio::sync::mpsc::Sender::try_send`. The tasks that share the queue decide
/// whether the value is taken; a value that is not taken comes back unchanged.
#[verifier::external_body]
pub(crate) fn try_send<T>(sender: &mpsc::Sender<T>, value: T) -> (r: Result<(), Refused<T>>)
    ensures
        r matches Err(Refused::Full(back)) ==> back == value,
        r matches Err(Refused::Closed(back)) ==> back == value,
{
    sender.try_send(value).map_err(
        |error| match error {
            mpsc::error::TrySendError::Full(value) => Refused::Full(value),
            mpsc::error::TrySendError::Closed(value) => Refused::Closed(value),
        },
    )
}

/// `tokio::sync::mpsc::Sender::try_reserve_owned`. The tasks that share the queue
/// decide whether a slot is reserved.
#[verifier::external_body]
pub(crate) fn try_reserve_owned<T>(sender: &mpsc::Sender<T>) -> Option<mpsc::OwnedPermit<T>> {
    sender.clone().try_reserve_owned().ok()
}

/// `tokio::sync::mpsc::OwnedPermit::send` into a reserved slot.
#[verifier::external_body]
pub(crate) fn send_reserved<T>(permit: mpsc::OwnedPermit<T>, value: T) {
    permit.send(value);
}

/// `tokio::sync::oneshot::channel`.
#[verifier::external_body]
pub(crate) fn exchange<T>() -> (oneshot::Sender<T>, oneshot::Receiver<T>) {
    oneshot::channel()
}

/// `tokio::sync::oneshot::Sender::send`. A value that nobody waits for any more
/// comes back unchanged.
#[verifier::external_body]
pub(crate) fn answer<T>(sender: oneshot::Sender<T>, value: T) -> (r: Result<(), T>)
    ensures
        r matches Err(back) ==> back == value,
{
    sender.send(value)
}

/// `tokio::sync::watch::channel` with its initial value.
#[verifier::external_body]
pub(crate) fn latest_value<T>(initial: T) -> (watch::Sender<T>, watch::Receiver<T>) {
    watch::channel(initial)
}

/// `tokio::sync::watch::Sender::send_replace`, which overwrites the value whether
/// or not anyone watches it. The value that it replaces is dropped.
#[verifier::external_body]
pub(crate) fn replace_latest<T>(cell: &watch::Sender<T>, value: T) {
    cell.send_replace(value);
}

/// `tokio::sync::watch::Receiver::borrow`, copied. The sending half decides.
#[verifier::external_body]
pub(crate) fn latest<T: Copy>(cell: &watch::Receiver<T>) -> T {
    *cell.borrow()
}

} // verus!
