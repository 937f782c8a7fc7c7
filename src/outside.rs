//! Declarations of the queue and the cancellation token that a faucet is
//! built on, with what the library relies on of each.
use std::sync::Arc;

use deadqueue::limited::Queue;
use tokio_util::sync::CancellationToken;
use vstd::prelude::*;

verus! {

/// The bounded queue of the `deadqueue` crate.
#[verifier::external_type_specification]
#[verifier::external_body]
#[verifier::reject_recursive_types(T)]
pub struct ExQueue<T>(Queue<T>);

/// The shared cancellation flag of `tokio_util`.
#[verifier::external_type_specification]
#[verifier::external_body]
pub struct ExCancellationToken(CancellationToken);

/// Relies on `deadqueue::limited::Queue::new`, which builds a
/// `crossbeam_queue::ArrayQueue` (it panics on a capacity of zero) and a
/// `tokio::sync::Semaphore` (it panics above `usize::MAX >> 3`, that is `usize::MAX / 8`, permits).
pub assume_specification<T>[ Queue::<T>::new ](max_size: usize) -> Queue<T>
    requires
        0 < max_size <= usize::MAX / 8,
;

/// Relies on `deadqueue::limited::Queue::try_push`: when no slot is free it
/// hands the very item back as `Err(item)`.
pub assume_specification<T>[ Queue::<T>::try_push ](q: &Queue<T>, item: T) -> (r: Result<(), T>)
    ensures
        r matches Err(back) ==> back == item,
;

/// Relies on `deadqueue::limited::Queue::try_pop`, which never waits.
pub assume_specification<T>[ Queue::<T>::try_pop ](q: &Queue<T>) -> Option<T>;

/// Relies on `deadqueue::limited::Queue::is_empty`.
pub assume_specification<T>[ Queue::<T>::is_empty ](q: &Queue<T>) -> bool;

/// Relies on `CancellationToken::new`, a token that is not cancelled.
pub assume_specification[ CancellationToken::new ]() -> CancellationToken;

/// Relies on `CancellationToken::cancel`, which may be called any number of
/// times.
pub assume_specification[ CancellationToken::cancel ](t: &CancellationToken);

/// Relies on `CancellationToken::is_cancelled`.
pub assume_specification[ CancellationToken::is_cancelled ](t: &CancellationToken) -> bool;

/// Relies on `CancellationToken`'s `Clone`: the clone holds the same shared
/// node, so the token's own `==` finds it equal to the original.
pub assume_specification[ <CancellationToken as Clone>::clone ](t: &CancellationToken) -> (r: CancellationToken)
    ensures
        r == *t,
;

/// Relies on `Arc::clone`: a second handle on the same queue.
#[verifier::external_body]
pub(crate) fn share_queue<T>(q: &Arc<Queue<T>>) -> (r: Arc<Queue<T>>)
    ensures
        r == *q,
{
    Arc::clone(q)
}

} // verus!
