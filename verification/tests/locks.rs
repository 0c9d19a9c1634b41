use locks::flag::Flag;
use locks::rw_lock::RWLock;
use locks::rw_lock_fair::{from_u64, to_u64, RWFair};
use locks::rw_lock_w::{from_counter, to_counter, RWW};
use locks::spin_lock::SpinLock;
use locks::src_barrier::Barrier;
use locks::ticket_lock::TicketLock;
use locks::util::{AtomicBool, AtomicPrimitive};
use locks::Lock;

#[test]
fn it_works() {
}

#[test]
fn simple_lock_unlock() {
    let mut lock = SpinLock::new();
    lock.lock();
    lock.unlock();
}

#[test]
fn lock_unlock() {
    let mut tl = TicketLock::new();
    tl.lock();
    tl.unlock();
    tl.lock();
    tl.unlock();
}

#[test]
fn test_tas() {
    let mut t = AtomicBool::new(true);
    assert!(t.test_and_set());
}

#[test]
fn test_and_set_on_clear_flag_reports_clear_then_set() {
    let mut t = AtomicBool::new(false);
    assert!(!t.test_and_set());
    assert!(t.test_and_set());
    assert!(t.test_and_set());
}

#[test]
fn spin_lock_can_be_taken_again_after_unlock() {
    let mut lock = SpinLock::new();
    for _ in 0..3 {
        lock.lock();
        lock.unlock();
    }
}

#[test]
fn ticket_lock_serves_many_rounds() {
    let mut tl = TicketLock::new();
    for _ in 0..100 {
        tl.lock();
        tl.unlock();
    }
}

#[test]
fn ticket_lock_second_lock_does_not_wait() {
    let mut tl = TicketLock::new();
    tl.lock();
    tl.lock();
    tl.unlock();
    tl.unlock();
}

#[test]
fn flag_wait_after_set_returns() {
    let mut f = Flag::new();
    f.set();
    f.wait();
    f.reest();
    f.set();
    f.wait();
}

#[test]
fn rw_lock_write_round_retries_once() {
    let mut l = RWLock::new();
    assert!(l.wlock_attempt());
    assert!(!l.wlock_attempt());
    assert!(!l.wlock_attempt());
}

#[test]
fn rw_lock_readers_share() {
    let mut l = RWLock::new();
    l.rlock();
    l.rlock();
    l.runlock();
}

#[test]
fn rw_lock_unlocks_wrap() {
    let mut l = RWLock::new();
    l.wunlock();
    l.rlock();
    l.rlock();
}

#[test]
fn from_u64_keeps_low_half_and_bit_31() {
    assert_eq!(from_u64(0), (0, 0));
    assert_eq!(from_u64(0x1_0000_0000), (0, 0));
    assert_eq!(from_u64(0x1234_5678_9abc_def0), (0x9abc_def0, 0x8000_0000));
    assert_eq!(from_u64(0x7fff_ffff), (0x7fff_ffff, 0));
    assert_eq!(from_u64(u64::MAX), (0xffff_ffff, 0x8000_0000));
}

#[test]
fn to_u64_shifts_by_32_plus_second_field() {
    assert_eq!(to_u64(0, 0), 0);
    assert_eq!(to_u64(1, 0), 0x1_0000_0000);
    assert_eq!(to_u64(3, 1), 0x6_0000_0000);
    assert_eq!(to_u64(0xffff_ffff, 1), 0xffff_fffe_0000_0000);
    assert_eq!(to_u64(0xffff_ffff, 31), 0x8000_0000_0000_0000);
}

#[test]
fn to_u64_then_from_u64_gives_zeros() {
    assert_eq!(from_u64(to_u64(5, 0)), (0, 0));
    assert_eq!(from_u64(to_u64(0xdead_beef, 7)), (0, 0));
}

#[test]
fn rw_fair_writer_after_reader() {
    let mut l = RWFair::new();
    l.r_lock();
    l.r_ulock();
    l.w_lock();
}

#[test]
fn from_counter_reads_readers_waiting_writers_and_writer_bit() {
    assert_eq!(from_counter(0), (0, 0, false));
    assert_eq!(from_counter(1), (0, 0, true));
    assert_eq!(from_counter(0x1_0000_0000), (1, 0, false));
    assert_eq!(from_counter(0x2_0000_0005), (2, 2, true));
    assert_eq!(from_counter(u64::MAX), (0xffff_ffff, 0x7fff_ffff, true));
}

#[test]
fn to_counter_packs_fields() {
    assert_eq!(to_counter(0, 0, false), 0);
    assert_eq!(to_counter(0, 0, true), 1);
    assert_eq!(to_counter(1, 0, false), 0x1_0000_0000);
    assert_eq!(to_counter(3, 2, true), 0x3_0000_0005);
    assert_eq!(to_counter(0xffff_ffff, 0x7fff_ffff, true), u64::MAX);
}

#[test]
fn to_counter_then_from_counter_round_trips() {
    assert_eq!(from_counter(to_counter(3, 4, true)), (3, 4, true));
    assert_eq!(from_counter(to_counter(0xdead_beef, 0x1234_5678, false)), (0xdead_beef, 0x1234_5678, false));
}

#[test]
fn rww_writer_lock_and_unlock_repeat() {
    let mut l = RWW::new();
    l.w_lock();
    l.w_unlock();
    l.w_lock();
    l.w_unlock();
    l.r_lock();
    l.r_unlock();
}

#[test]
fn rww_readers_share() {
    let mut l = RWW::new();
    l.r_lock();
    l.r_lock();
    l.r_unlock();
    l.r_unlock();
    l.w_lock();
    l.w_unlock();
}

#[test]
fn barrier_new_has_no_thread_senses() {
    let _b = Barrier::new(4);
}
