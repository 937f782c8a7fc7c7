use std::ops::ControlFlow;
use std::sync::Arc;

use deadqueue::limited::Queue;
use tokio_util::sync::CancellationToken;
use vstd::prelude::*;

use crate::model::{push_flow, NextRace, PushRace};
use crate::outside::share_queue;

verus! {

/// A back-pressured queue of bounded length that can be drained after its
/// completion is signalled.
///
/// Every clone of a faucet is a handle on the same queue and the same
/// cancellation token. Once the token is cancelled (by [`Faucet::end`] or by
/// whoever owns the token) no value is accepted any more, while the values
/// already queued can still be taken out.
#[verifier::reject_recursive_types(T)]
pub struct Faucet<T> {
    queue: Arc<Queue<T>>,
    completion: CancellationToken,
    /// The size the queue was built with.
    bound: Ghost<nat>,
}

impl<T> Clone for Faucet<T> {
    /// A new handle on the same queue and the same token.
    fn clone(&self) -> (r: Self)
        ensures
            r == *self,
    {
        Faucet {
            queue: share_queue(&self.queue),
            completion: self.completion.clone(),
            bound: self.bound,
        }
    }
}

impl<T> Faucet<T> {
    /// The token whose cancellation ends this faucet.
    pub closed spec fn token(&self) -> CancellationToken {
        self.completion
    }

    /// The most values the queue holds, fixed when the faucet is created
    /// and shared by all its clones.
    pub closed spec fn cap(&self) -> nat {
        self.bound@
    }

    /// Creates a faucet whose queue holds at most `max_len` values.
    pub fn new(max_len: usize) -> (r: Self)
        requires
            0 < max_len <= usize::MAX / 8,
        ensures
            r.cap() == max_len,
    {
        Faucet {
            queue: Arc::new(Queue::new(max_len)),
            completion: CancellationToken::new(),
            bound: Ghost(max_len as nat),
        }
    }

    /// Creates a faucet whose queue holds at most `max_len` values and which
    /// ends when `cancellation` is cancelled, for instance by the owner of a
    /// parent token.
    pub fn new_with_cancellation(max_len: usize, cancellation: CancellationToken) -> (r: Self)
        requires
            0 < max_len <= usize::MAX / 8,
        ensures
            r.cap() == max_len,
            r.token() == cancellation,
    {
        Faucet {
            queue: Arc::new(Queue::new(max_len)),
            completion: cancellation,
            bound: Ghost(max_len as nat),
        }
    }

    /// Cancels the faucet: no value is accepted from now on, and the values
    /// already queued are left to be drained. Calling it again changes
    /// nothing.
    pub fn end(&self) {
        self.completion.cancel();
    }

    /// Whether the faucet is cancelled and its queue is empty.
    ///
    /// The token is read before the queue: once it is cancelled no value can
    /// enter, so an empty queue seen after it stays empty.
    pub fn is_finished(&self) -> bool {
        let cancelled = self.completion.is_cancelled();
        let empty = self.queue.is_empty();
        finished_from(cancelled, empty)
    }

    /// Whether the faucet still accepts values or still holds some to drain:
    /// the negation of [`Faucet::is_finished`], from the same two readings.
    pub fn is_pending(&self) -> bool {
        let cancelled = self.completion.is_cancelled();
        let empty = self.queue.is_empty();
        pending_from(cancelled, empty)
    }

    /// Whether the faucet has been cancelled and accepts no more values.
    pub fn is_cancelled(&self) -> bool {
        self.completion.is_cancelled()
    }

    /// Offers a value without waiting. It comes back as `Err(value)` when the
    /// faucet is cancelled or its queue is full.
    pub fn try_push(&self, value: T) -> (r: Result<(), T>)
        ensures
            r matches Err(back) ==> back == value,
    {
        let cancelled = self.completion.is_cancelled();
        self.try_push_unless(cancelled, value)
    }

    /// The rest of [`Faucet::try_push`] once the token has been read: a
    /// cancelled faucet hands the value back without touching the queue,
    /// an open one offers it to the queue.
    pub fn try_push_unless(&self, cancelled: bool, value: T) -> (r: Result<(), T>)
        ensures
            cancelled ==> r == Err::<(), T>(value),
            r matches Err(back) ==> back == value,
    {
        if cancelled {
            return Err(value);
        }
        self.queue.try_push(value)
    }

    /// What a blocking push returns once its wait for room has ended:
    /// `Break` when the cancellation came first and the value was dropped
    /// from the queue's reach, `Continue` when the value was stored.
    pub fn settle_push(&self, race: PushRace) -> (r: ControlFlow<(), ()>)
        ensures
            r == push_flow(race),
    {
        match race {
            PushRace::Cancelled => ControlFlow::Break(()),
            PushRace::Stored => ControlFlow::Continue(()),
        }
    }

    /// What a blocking pop returns once its wait for a value has ended. After
    /// a cancellation it makes exactly one more non-blocking attempt, so that
    /// a value queued just before the cancellation is not lost; `None` then
    /// means that the faucet is drained.
    pub fn settle_next(&self, race: NextRace<T>) -> (r: Option<T>)
        ensures
            race matches NextRace::Popped(v) ==> r == Some(v),
    {
        match race {
            NextRace::Cancelled => {
                self.queue.try_pop()
            },
            NextRace::Popped(v) => {
                Some(v)
            },
        }
    }

    /// Takes the oldest value out without waiting; `None` when the queue is
    /// empty at this moment.
    pub fn try_pop(&self) -> Option<T> {
        self.queue.try_pop()
    }

    /// The number of values queued at this moment.
    ///
    /// Relies on `deadqueue::limited::Queue::len`, which is
    /// `crossbeam_queue::ArrayQueue::len`: never more than the capacity that
    /// the queue was built with, which is `cap()`.
    #[verifier::external_body]
    pub fn len(&self) -> (r: usize)
        ensures
            r <= self.cap(),
    {
        self.queue.len()
    }

    /// The most values the queue can hold.
    ///
    /// Relies on `deadqueue::limited::Queue::capacity`, the size given to
    /// `Queue::new` by the constructor, which is `cap()`.
    #[verifier::external_body]
    pub fn capacity(&self) -> (r: usize)
        ensures
            r == self.cap(),
            r > 0,
    {
        self.queue.capacity()
    }

    /// The token whose cancellation ends this faucet, for waiting on it.
    pub fn cancellation_token(&self) -> (r: &CancellationToken)
        ensures
            *r == self.token(),
    {
        &self.completion
    }

    /// The shared queue, for waiting on room or on a value in a race with the
    /// token, as blocking push and pop do, after [`PushRace::before_wait`] or
    /// [`NextRace::before_wait`] has found the token open. A value pushed on it directly is
    /// not held back by a cancellation: offer values through
    /// [`Faucet::try_push`] or a blocking push that races the token.
    pub fn queue(&self) -> (r: &Queue<T>) {
        &self.queue
    }
}

/// Whether a faucet is finished, from a reading of its token and then one
/// of its queue: cancelled, with nothing left to drain.
pub fn finished_from(cancelled: bool, empty: bool) -> (r: bool)
    ensures
        r == (cancelled && empty),
{
    cancelled && empty
}

/// Whether a faucet is pending, from a reading of its token and then one of
/// its queue: still open, or still holding values to drain.
pub fn pending_from(cancelled: bool, empty: bool) -> (r: bool)
    ensures
        r == !(cancelled && empty),
{
    !finished_from(cancelled, empty)
}

} // verus!
