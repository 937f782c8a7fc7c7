use std::ops::ControlFlow;

use faucet_drain::faucet::{finished_from, pending_from};
use faucet_drain::{Faucet, NextRace, PushRace};
use tokio::runtime::{Builder, Runtime};
use tokio_util::sync::CancellationToken;

fn runtime() -> Runtime {
    Builder::new_current_thread().build().unwrap()
}

/// A blocking push whose wait for room ended before any cancellation.
fn push_with_room(rt: &Runtime, faucet: &Faucet<i32>, v: i32) -> ControlFlow<(), ()> {
    if let Some(race) = PushRace::before_wait(faucet.is_cancelled()) {
        return faucet.settle_push(race);
    }
    rt.block_on(faucet.queue().push(v));
    faucet.settle_push(PushRace::Stored)
}

/// A blocking pop on a cancelled faucet, which never waits.
fn next_after_cancel(faucet: &Faucet<i32>) -> Option<i32> {
    assert!(faucet.is_cancelled());
    faucet.settle_next(NextRace::Cancelled)
}

#[test]
fn end_then_drain_in_order() {
    let rt = runtime();
    let f = Faucet::new(5);
    for v in 1..=3 {
        assert_eq!(push_with_room(&rt, &f, v), ControlFlow::Continue(()));
    }
    assert_eq!(f.len(), 3);
    f.end();
    assert_eq!(f.try_push(4), Err(4));
    assert_eq!(f.len(), 3);
    assert_eq!(next_after_cancel(&f), Some(1));
    assert_eq!(f.len(), 2);
    assert!(!f.is_finished());
    assert_eq!(next_after_cancel(&f), Some(2));
    assert_eq!(f.len(), 1);
    assert_eq!(next_after_cancel(&f), Some(3));
    assert_eq!(f.len(), 0);
    assert!(f.is_finished());
    assert_eq!(next_after_cancel(&f), None);
    assert!(f.is_finished());
}

#[test]
fn push_stored_before_cancel_is_drained() {
    let rt = runtime();
    let f = Faucet::new(1);
    assert_eq!(push_with_room(&rt, &f, 9), ControlFlow::Continue(()));
    f.end();
    assert!(f.is_pending());
    assert_eq!(next_after_cancel(&f), Some(9));
    assert_eq!(next_after_cancel(&f), None);
    assert!(f.is_finished());
}

#[test]
fn push_after_cancel_breaks() {
    let rt = runtime();
    let f = Faucet::new(1);
    f.end();
    assert_eq!(push_with_room(&rt, &f, 9), ControlFlow::Break(()));
    assert_eq!(f.len(), 0);
    assert_eq!(next_after_cancel(&f), None);
    assert!(f.is_finished());
}

#[test]
fn try_push_hands_back_value_when_full() {
    let f = Faucet::new(2);
    assert_eq!(f.try_push(10), Ok(()));
    assert_eq!(f.try_push(11), Ok(()));
    assert_eq!(f.try_push(12), Err(12));
    assert_eq!(f.len(), 2);
    assert_eq!(f.capacity(), 2);
    assert!(f.len() <= f.capacity());
}

#[test]
fn try_pop_keeps_push_order() {
    let f = Faucet::new(3);
    assert_eq!(f.try_pop(), None);
    assert_eq!(f.try_push(1), Ok(()));
    assert_eq!(f.try_push(2), Ok(()));
    assert_eq!(f.try_pop(), Some(1));
    assert_eq!(f.try_push(3), Ok(()));
    assert_eq!(f.try_pop(), Some(2));
    assert_eq!(f.try_pop(), Some(3));
    assert_eq!(f.try_pop(), None);
    assert!(!f.is_finished());
    assert!(f.is_pending());
}

#[test]
fn end_twice_is_end_once() {
    let f = Faucet::new(2);
    assert_eq!(f.try_push(1), Ok(()));
    f.end();
    f.end();
    assert!(f.is_cancelled());
    assert_eq!(f.len(), 1);
    assert_eq!(f.try_push(2), Err(2));
    assert_eq!(f.try_pop(), Some(1));
    assert!(f.is_finished());
}

#[test]
fn clones_share_queue_and_token() {
    let f = Faucet::new(2);
    let g = f.clone();
    assert_eq!(f.try_push(5), Ok(()));
    assert_eq!(g.len(), 1);
    g.end();
    assert!(f.is_cancelled());
    assert_eq!(f.try_pop(), Some(5));
    assert!(g.is_finished());
}

#[test]
fn parent_token_cancels_faucet() {
    let parent = CancellationToken::new();
    let f = Faucet::new_with_cancellation(3, parent.clone());
    assert!(!f.is_cancelled());
    assert_eq!(f.try_push(1), Ok(()));
    parent.cancel();
    assert!(f.is_cancelled());
    assert_eq!(f.try_push(2), Err(2));
    assert!(!f.is_finished());
    assert_eq!(f.settle_next(NextRace::Cancelled), Some(1));
    assert!(f.is_finished());
    assert!(f.cancellation_token().is_cancelled());
}

#[test]
fn settle_reports_the_race() {
    let f: Faucet<i32> = Faucet::new(1);
    assert_eq!(f.settle_push(PushRace::Cancelled), ControlFlow::Break(()));
    assert_eq!(f.settle_push(PushRace::Stored), ControlFlow::Continue(()));
    assert_eq!(f.settle_next(NextRace::Popped(4)), Some(4));
    assert_eq!(f.settle_next(NextRace::Cancelled), None);
}

#[test]
fn occupancy_stays_within_capacity() {
    let f = Faucet::new(3);
    for v in 0..10 {
        let _ = f.try_push(v);
        assert!(f.len() <= f.capacity());
        if v % 3 == 0 {
            let _ = f.try_pop();
        }
        assert!(f.len() <= f.capacity());
    }
    assert_eq!(f.len(), 2);
}

#[test]
fn observed_cancellation_hands_value_back() {
    let f = Faucet::new(2);
    assert_eq!(f.try_push_unless(true, 1), Err(1));
    assert_eq!(f.len(), 0);
    assert_eq!(f.try_push_unless(false, 2), Ok(()));
    assert_eq!(f.len(), 1);
    assert!(!f.is_cancelled());
}

#[test]
fn finished_and_pending_from_readings() {
    assert!(finished_from(true, true));
    assert!(!finished_from(true, false));
    assert!(!finished_from(false, true));
    assert!(!finished_from(false, false));
    assert!(!pending_from(true, true));
    assert!(pending_from(true, false));
    assert!(pending_from(false, true));
    assert!(pending_from(false, false));
}

#[test]
fn visible_cancellation_decides_before_waiting() {
    assert!(matches!(PushRace::before_wait(true), Some(PushRace::Cancelled)));
    assert!(PushRace::before_wait(false).is_none());
    assert!(matches!(NextRace::<i32>::before_wait(true), Some(NextRace::Cancelled)));
    assert!(NextRace::<i32>::before_wait(false).is_none());
    let f = Faucet::new(1);
    assert_eq!(f.try_push(3), Ok(()));
    f.end();
    let race = NextRace::before_wait(f.is_cancelled()).unwrap();
    assert_eq!(f.settle_next(race), Some(3));
    let race = PushRace::before_wait(f.is_cancelled()).unwrap();
    assert_eq!(f.settle_push(race), ControlFlow::Break(()));
}

#[test]
fn capacity_is_the_size_given() {
    let f: Faucet<u8> = Faucet::new(7);
    assert_eq!(f.capacity(), 7);
    assert_eq!(f.clone().capacity(), 7);
    let g: Faucet<u8> = Faucet::new_with_cancellation(4, CancellationToken::new());
    assert_eq!(g.capacity(), 4);
    assert_eq!(g.len(), 0);
}
