use locks::queue::{Observation, UnlockStep};
use locks::{clh, k42, msc};

#[test]
fn k42_uncontended_lock_takes_empty_queue() {
    let mut step = k42::LockStep::start();
    assert_eq!(step, k42::LockStep::LoadTail);
    step = step.next(Observation::Pointer(0));
    assert_eq!(step, k42::LockStep::AcquireEmpty);
    step = step.next(Observation::Exchanged(true));
    assert!(step.is_held());
}

#[test]
fn k42_contended_lock_waits_then_restores_tail() {
    let mut step = k42::LockStep::start();
    step = step.next(Observation::Pointer(0x1000));
    assert_eq!(step, k42::LockStep::Enqueue(0x1000));
    step = step.next(Observation::Exchanged(true));
    assert_eq!(step, k42::LockStep::LinkPredecessor(0x1000));
    step = step.next(Observation::Done);
    assert_eq!(step, k42::LockStep::AwaitGrant);
    step = step.next(Observation::Pointer(0));
    assert_eq!(step, k42::LockStep::AwaitGrant);
    step = step.next(Observation::Pointer(0x2000));
    assert_eq!(step, k42::LockStep::LoadSuccessor);
    step = step.next(Observation::Pointer(0));
    assert_eq!(step, k42::LockStep::ClearQueueNext);
    step = step.next(Observation::Done);
    assert_eq!(step, k42::LockStep::RestoreTail);
    step = step.next(Observation::Exchanged(false));
    assert_eq!(step, k42::LockStep::AwaitSuccessor);
    step = step.next(Observation::Pointer(0));
    assert_eq!(step, k42::LockStep::AwaitSuccessor);
    step = step.next(Observation::Pointer(0x3000));
    assert_eq!(step, k42::LockStep::PublishSuccessor(0x3000));
    step = step.next(Observation::Done);
    assert!(step.is_held());
}

#[test]
fn k42_failed_swaps_start_over() {
    let step = k42::LockStep::AcquireEmpty.next(Observation::Exchanged(false));
    assert_eq!(step, k42::LockStep::LoadTail);
    let step = k42::LockStep::Enqueue(8).next(Observation::Exchanged(false));
    assert_eq!(step, k42::LockStep::LoadTail);
    let step = k42::LockStep::LoadSuccessor.next(Observation::Pointer(16));
    assert_eq!(step, k42::LockStep::PublishSuccessor(16));
    let step = k42::LockStep::RestoreTail.next(Observation::Exchanged(true));
    assert!(step.is_held());
}

#[test]
fn unlock_without_successor_empties_queue() {
    let mut step = UnlockStep::start();
    assert_eq!(step, UnlockStep::Fence);
    step = step.next(Observation::Done);
    assert_eq!(step, UnlockStep::LoadNext);
    step = step.next(Observation::Pointer(0));
    assert_eq!(step, UnlockStep::ReleaseEmpty);
    step = step.next(Observation::Exchanged(true));
    assert!(step.is_released());
}

#[test]
fn unlock_hands_over_to_late_successor() {
    let mut step = UnlockStep::ReleaseEmpty;
    step = step.next(Observation::Exchanged(false));
    assert_eq!(step, UnlockStep::AwaitSuccessor);
    step = step.next(Observation::Pointer(0));
    assert_eq!(step, UnlockStep::AwaitSuccessor);
    step = step.next(Observation::Pointer(0x40));
    assert_eq!(step, UnlockStep::HandOver(0x40));
    step = step.next(Observation::Done);
    assert!(step.is_released());
}

#[test]
fn unlock_hands_over_to_linked_successor() {
    let step = UnlockStep::LoadNext.next(Observation::Pointer(0x80));
    assert_eq!(step, UnlockStep::HandOver(0x80));
    assert!(!step.is_released());
}

#[test]
fn msc_uncontended_lock() {
    let mut step = msc::LockStep::start();
    assert_eq!(step, msc::LockStep::PrepareNode);
    step = step.next(Observation::Done);
    assert_eq!(step, msc::LockStep::SwapTail);
    step = step.next(Observation::Pointer(0));
    assert_eq!(step, msc::LockStep::Fence);
    step = step.next(Observation::Done);
    assert!(step.is_held());
}

#[test]
fn msc_contended_lock_waits_for_grant() {
    let mut step = msc::LockStep::SwapTail.next(Observation::Pointer(0x100));
    assert_eq!(step, msc::LockStep::LinkPredecessor(0x100));
    step = step.next(Observation::Done);
    assert_eq!(step, msc::LockStep::AwaitGrant);
    step = step.next(Observation::Flag(true));
    assert_eq!(step, msc::LockStep::AwaitGrant);
    step = step.next(Observation::Flag(false));
    assert_eq!(step, msc::LockStep::Fence);
}

#[test]
fn clh_lock_waits_on_predecessor() {
    let mut step = clh::LockStep::start();
    assert_eq!(step, clh::LockStep::MarkWaiting);
    step = step.next(Observation::Done);
    assert_eq!(step, clh::LockStep::SwapTail);
    step = step.next(Observation::Pointer(0x500));
    assert_eq!(step, clh::LockStep::RecordPredecessor(0x500));
    step = step.next(Observation::Done);
    assert_eq!(step, clh::LockStep::AwaitPredecessor(0x500));
    step = step.next(Observation::Flag(true));
    assert_eq!(step, clh::LockStep::AwaitPredecessor(0x500));
    step = step.next(Observation::Flag(false));
    assert_eq!(step, clh::LockStep::Fence);
    step = step.next(Observation::Done);
    assert!(step.is_held());
}

#[test]
fn test_lock_unlock() {
    let dummy = 0x10;
    let mut step = clh::LockStep::start();
    step = step.next(Observation::Done);
    step = step.next(Observation::Pointer(dummy));
    step = step.next(Observation::Done);
    step = step.next(Observation::Flag(false));
    step = step.next(Observation::Done);
    assert!(step.is_held());
}

#[test]
fn mod_lock_unlock() {
    let mut lock = msc::LockStep::start();
    lock = lock.next(Observation::Done);
    lock = lock.next(Observation::Pointer(0));
    lock = lock.next(Observation::Done);
    assert!(lock.is_held());
    let mut unlock = UnlockStep::start();
    unlock = unlock.next(Observation::Done);
    unlock = unlock.next(Observation::Pointer(0));
    unlock = unlock.next(Observation::Exchanged(true));
    assert!(unlock.is_released());
}
