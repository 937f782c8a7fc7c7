//! The state that all handles on one faucet share, as a mathematical model:
//! the queued values in order, the capacity and the cancellation flag, with
//! one transition for each operation. The laws below are proved of this
//! abstract model; a `Faucet` shares its state between handles behind `&self`,
//! so its own contracts speak of single calls only. Of the faucet's own
//! functions, `settle_push` returns exactly `push_flow`, `settle_next` returns
//! what `next_settled` gives for a popped value, and `before_wait` serves an
//! already visible cancellation first, as `step` does.
use std::ops::ControlFlow;

use vstd::prelude::*;

verus! {

/// How the wait of a blocking push ended.
pub enum PushRace {
    /// The cancellation was observed first; the value was not queued.
    Cancelled,
    /// The value was stored in the queue.
    Stored,
}

/// How the wait of a blocking pop ended.
pub enum NextRace<T> {
    /// The cancellation was observed first.
    Cancelled,
    /// A value was taken from the queue.
    Popped(T),
}

impl PushRace {
    /// The outcome of a blocking push decided before it waits: a cancellation
    /// already visible wins over free room, and the value is not offered.
    /// `None` when the token reads open, so the push has to wait.
    pub fn before_wait(cancelled: bool) -> (r: Option<PushRace>)
        ensures
            cancelled ==> r == Some(PushRace::Cancelled),
            !cancelled ==> r is None,
    {
        if cancelled {
            Some(PushRace::Cancelled)
        } else {
            None
        }
    }
}

impl<T> NextRace<T> {
    /// The outcome of a blocking pop decided before it waits: a cancellation
    /// already visible wins over a queued value, and only the one final
    /// non-blocking pop follows. `None` when the token reads open, so the pop
    /// has to wait.
    pub fn before_wait(cancelled: bool) -> (r: Option<NextRace<T>>)
        ensures
            cancelled ==> r == Some(NextRace::<T>::Cancelled),
            !cancelled ==> r is None,
    {
        if cancelled {
            Some(NextRace::Cancelled)
        } else {
            None
        }
    }
}

/// What a blocking push reports once its wait has ended.
pub open spec fn push_flow(race: PushRace) -> ControlFlow<(), ()> {
    match race {
        PushRace::Cancelled => ControlFlow::Break(()),
        PushRace::Stored => ControlFlow::Continue(()),
    }
}

/// What a blocking pop reports once its wait has ended, given what the one
/// non-blocking pop that follows a cancellation returned.
pub open spec fn next_settled<T>(race: NextRace<T>, last_try: Option<T>) -> Option<T> {
    match race {
        NextRace::Cancelled => last_try,
        NextRace::Popped(v) => Some(v),
    }
}

/// An operation on a faucet, by any of its handles.
pub enum Op<T> {
    TryPush(T),
    Push(T),
    TryPop,
    Next,
    Cancel,
}

/// What an operation returns.
pub enum Reply<T> {
    Done,
    Pushed(Result<(), T>),
    Flow(ControlFlow<(), ()>),
    Popped(Option<T>),
}

/// The shared state of a faucet.
pub struct FaucetModel<T> {
    /// The queued values, oldest first.
    pub items: Seq<T>,
    pub capacity: nat,
    pub cancelled: bool,
}

impl<T> FaucetModel<T> {
    /// A new faucet: empty and open.
    pub open spec fn fresh(capacity: nat) -> Self {
        FaucetModel { items: Seq::empty(), capacity, cancelled: false }
    }

    /// The occupancy never exceeds the capacity.
    pub open spec fn wf(self) -> bool {
        self.items.len() <= self.capacity
    }

    /// Cancelled, with nothing left to drain.
    pub open spec fn finished(self) -> bool {
        self.cancelled && self.items.len() == 0
    }

    /// Whether a value offered now is queued.
    pub open spec fn accepts(self) -> bool {
        !self.cancelled && self.items.len() < self.capacity
    }

    pub open spec fn with_cancel(self) -> Self {
        FaucetModel { cancelled: true, ..self }
    }

    pub open spec fn with_pushed(self, v: T) -> Self {
        FaucetModel { items: self.items.push(v), ..self }
    }

    /// Takes the oldest value out, if there is one.
    pub open spec fn pop_front(self) -> (Self, Option<T>) {
        if self.items.len() > 0 {
            (FaucetModel { items: self.items.drop_first(), ..self }, Some(self.items[0]))
        } else {
            (self, None)
        }
    }

    /// Whether the operation can complete now rather than wait: a blocking
    /// push waits for room or a cancellation, a blocking pop for a value or a
    /// cancellation.
    pub open spec fn ready(self, op: Op<T>) -> bool {
        match op {
            Op::Push(_) => self.cancelled || self.items.len() < self.capacity,
            Op::Next => self.cancelled || self.items.len() > 0,
            _ => true,
        }
    }

    /// The state after the operation completes, and what it returns. An
    /// observed cancellation is served before room or a value.
    pub open spec fn step(self, op: Op<T>) -> (Self, Reply<T>) {
        match op {
            Op::TryPush(v) => if self.accepts() {
                (self.with_pushed(v), Reply::Pushed(Ok(())))
            } else {
                (self, Reply::Pushed(Err(v)))
            },
            Op::Push(v) => if self.cancelled {
                (self, Reply::Flow(push_flow(PushRace::Cancelled)))
            } else {
                (self.with_pushed(v), Reply::Flow(push_flow(PushRace::Stored)))
            },
            Op::TryPop => (self.pop_front().0, Reply::Popped(self.pop_front().1)),
            Op::Next => {
                let race = if self.cancelled {
                    NextRace::Cancelled
                } else {
                    NextRace::Popped(self.items[0])
                };
                (self.pop_front().0, Reply::Popped(next_settled(race, self.pop_front().1)))
            },
            Op::Cancel => (self.with_cancel(), Reply::Done),
        }
    }

    /// The state after the operations, in order; one that would wait leaves
    /// the state as it is.
    pub open spec fn run(self, ops: Seq<Op<T>>) -> Self
        decreases ops.len(),
    {
        if ops.len() == 0 {
            self
        } else {
            let next = if self.ready(ops[0]) {
                self.step(ops[0]).0
            } else {
                self
            };
            next.run(ops.drop_first())
        }
    }

    /// What `k` blocking pops in a row return.
    pub open spec fn drain(self, k: nat) -> Seq<Option<T>>
        decreases k,
    {
        if k == 0 {
            Seq::empty()
        } else {
            seq![self.pop_front().1] + self.pop_front().0.drain((k - 1) as nat)
        }
    }
}

/// Blocking pushes of each value in turn.
pub open spec fn pushes<T>(vs: Seq<T>) -> Seq<Op<T>> {
    vs.map_values(|v: T| Op::Push(v))
}

/// Any operation that completes keeps the occupancy within the capacity.
pub proof fn step_keeps_capacity<T>(m: FaucetModel<T>, op: Op<T>)
    requires
        m.wf(),
        m.ready(op),
    ensures
        m.step(op).0.wf(),
        m.step(op).0.capacity == m.capacity,
{
}

/// Whatever the interleaving of operations from any handles, the occupancy
/// stays between zero and the capacity.
pub proof fn capacity_invariant<T>(m: FaucetModel<T>, ops: Seq<Op<T>>)
    requires
        m.wf(),
    ensures
        m.run(ops).wf(),
        m.run(ops).capacity == m.capacity,
    decreases ops.len(),
{
    if ops.len() > 0 {
        if m.ready(ops[0]) {
            step_keeps_capacity(m, ops[0]);
            capacity_invariant(m.step(ops[0]).0, ops.drop_first());
        } else {
            capacity_invariant(m, ops.drop_first());
        }
    }
}

/// A new faucet starts, and so stays, within its capacity.
pub proof fn fresh_within_capacity<T>(capacity: nat, ops: Seq<Op<T>>)
    ensures
        FaucetModel::<T>::fresh(capacity).run(ops).wf(),
{
    capacity_invariant(FaucetModel::<T>::fresh(capacity), ops);
}

/// Once cancelled, a faucet stays cancelled and its queue only shrinks: what
/// is left is always a suffix of what was queued.
pub proof fn cancelled_only_shrinks<T>(m: FaucetModel<T>, ops: Seq<Op<T>>)
    requires
        m.cancelled,
    ensures
        m.run(ops).cancelled,
        m.run(ops).items.len() <= m.items.len(),
        m.run(ops).items == m.items.subrange(
            m.items.len() - m.run(ops).items.len(),
            m.items.len() as int,
        ),
    decreases ops.len(),
{
    if ops.len() > 0 {
        let next = if m.ready(ops[0]) {
            m.step(ops[0]).0
        } else {
            m
        };
        assert(next.cancelled);
        assert(next.items == m.items || next.items == m.items.drop_first());
        cancelled_only_shrinks(next, ops.drop_first());
        let k = next.run(ops.drop_first()).items.len();
        if next.items == m.items.drop_first() && m.items.len() > 0 {
            assert(next.items.subrange(next.items.len() - k, next.items.len() as int)
                =~= m.items.subrange(m.items.len() - k, m.items.len() as int));
        } else {
            assert(next.items =~= m.items);
        }
    } else {
        assert(m.items =~= m.items.subrange(0, m.items.len() as int));
    }
}

/// Once finished, a faucet stays finished, whatever any handle does.
pub proof fn finish_is_final<T>(m: FaucetModel<T>, ops: Seq<Op<T>>)
    requires
        m.finished(),
    ensures
        m.run(ops).finished(),
{
    cancelled_only_shrinks(m, ops);
}

/// After a cancellation no value enters: a non-blocking push hands the value
/// back and a blocking push reports `Break`, both leaving the state as it is.
pub proof fn no_enqueue_after_cancel<T>(m: FaucetModel<T>, v: T)
    requires
        m.cancelled,
    ensures
        m.step(Op::TryPush(v)) == (m, Reply::Pushed(Err(v))),
        m.step(Op::Push(v)) == (m, Reply::<T>::Flow(ControlFlow::Break(()))),
        m.ready(Op::Push(v)),
{
}

/// Cancelling twice has the same effect as cancelling once.
pub proof fn cancel_is_idempotent<T>(m: FaucetModel<T>, ops: Seq<Op<T>>)
    ensures
        m.step(Op::Cancel).0.step(Op::Cancel) == m.step(Op::Cancel),
        m.step(Op::Cancel).0.step(Op::Cancel).0.run(ops) == m.step(Op::Cancel).0.run(ops),
{
}

/// A blocking pop that completes reports the end only on an empty queue;
/// otherwise it returns the oldest value.
pub proof fn no_premature_end<T>(m: FaucetModel<T>)
    requires
        m.ready(Op::Next),
    ensures
        m.step(Op::Next).1 == Reply::<T>::Popped(None) <==> m.items.len() == 0,
        m.items.len() > 0 ==> m.step(Op::Next).1 == Reply::Popped(Some(m.items[0])),
        m.items.len() == 0 ==> m.finished(),
{
}

/// Blocking pops on a cancelled faucet return its values in order, then the
/// end, and never wait.
pub proof fn drain_of_cancelled<T>(m: FaucetModel<T>, k: nat)
    requires
        m.cancelled,
    ensures
        m.drain(k).len() == k,
        forall|i: int|
            0 <= i < k ==> #[trigger] m.drain(k)[i] == if i < m.items.len() {
                Some(m.items[i])
            } else {
                None
            },
    decreases k,
{
    if k > 0 {
        let rest = m.pop_front().0;
        drain_of_cancelled(rest, (k - 1) as nat);
        assert forall|i: int| 0 <= i < k implies #[trigger] m.drain(k)[i] == if i
            < m.items.len() {
            Some(m.items[i])
        } else {
            None
        } by {
            if i > 0 {
                assert(m.drain(k)[i] == rest.drain((k - 1) as nat)[i - 1]);
            }
        }
    }
}

/// Blocking pushes on an open faucet with room queue their values in order.
pub proof fn pushes_queue_in_order<T>(m: FaucetModel<T>, vs: Seq<T>)
    requires
        !m.cancelled,
        m.items.len() + vs.len() <= m.capacity,
    ensures
        m.run(pushes(vs)).items == m.items + vs,
        !m.run(pushes(vs)).cancelled,
        m.run(pushes(vs)).capacity == m.capacity,
    decreases vs.len(),
{
    if vs.len() == 0 {
        assert(pushes(vs) =~= Seq::<Op<T>>::empty());
        assert(m.items + vs =~= m.items);
    } else {
        let ops = pushes(vs);
        assert(ops[0] == Op::Push(vs[0]));
        assert(ops.drop_first() =~= pushes(vs.drop_first()));
        pushes_queue_in_order(m.with_pushed(vs[0]), vs.drop_first());
        assert(m.items.push(vs[0]) + vs.drop_first() =~= m.items + vs);
    }
}

/// Values pushed into a new faucet before its cancellation come out of
/// blocking pops exactly once each, in push order, and every pop after them
/// reports the end.
pub proof fn drain_completeness<T>(capacity: nat, vs: Seq<T>, extra: nat)
    requires
        vs.len() <= capacity,
    ensures
        ({
            let drained = FaucetModel::<T>::fresh(capacity).run(pushes(vs)).with_cancel();
            let out = drained.drain(vs.len() + extra);
            &&& out.len() == vs.len() + extra
            &&& forall|i: int| 0 <= i < vs.len() ==> #[trigger] out[i] == Some(vs[i])
            &&& forall|i: int| vs.len() <= i < out.len() ==> #[trigger] out[i] == None::<T>
        }),
{
    let m = FaucetModel::<T>::fresh(capacity);
    pushes_queue_in_order(m, vs);
    assert(m.items + vs =~= vs);
    let drained = m.run(pushes(vs)).with_cancel();
    drain_of_cancelled(drained, vs.len() + extra);
}

/// A blocking push of `x` into a new, empty faucet races a cancellation.
/// Whichever completes first, the faucet ends up finished once drained, and
/// exactly one of two things happened: the push reported `Continue` and a
/// blocking pop returned `x`, or the push reported `Break` and `x` never
/// entered.
pub proof fn push_races_cancel<T>(capacity: nat, x: T)
    requires
        capacity > 0,
    ensures
        ({
            let m = FaucetModel::<T>::fresh(capacity);
            let (pushed, reply) = m.step(Op::Push(x));
            let ended = pushed.step(Op::Cancel).0;
            &&& m.ready(Op::Push(x))
            &&& reply == Reply::<T>::Flow(ControlFlow::Continue(()))
            &&& ended.drain(2) == seq![Some(x), None]
            &&& ended.pop_front().0.finished()
        }),
        ({
            let m = FaucetModel::<T>::fresh(capacity).step(Op::Cancel).0;
            let (after, reply) = m.step(Op::Push(x));
            &&& m.ready(Op::Push(x))
            &&& reply == Reply::<T>::Flow(ControlFlow::Break(()))
            &&& after.drain(1) == seq![None::<T>]
            &&& after.finished()
        }),
{
    let m = FaucetModel::<T>::fresh(capacity);
    let ended = m.step(Op::Push(x)).0.step(Op::Cancel).0;
    assert(ended.items =~= seq![x]);
    assert(ended.pop_front().0.items =~= Seq::<T>::empty());
    let rest = ended.pop_front().0;
    assert(rest.drain(1) =~= seq![None::<T>] + rest.drain(0));
    assert(ended.drain(2) =~= seq![Some(x), None]);
    let m2 = m.step(Op::Cancel).0;
    assert(m2.step(Op::Push(x)).0.drain(1) =~= seq![None::<T>]);
}

} // verus!
