use rustic::sched::{Scheduler, Thread, ThreadState};
use rustic::sync::{LockError, Spinlock, TryLockError};

fn spawned(s: &mut Scheduler, entry: u32) {
    s.spawn_thread(0x1000, entry, 0, 0x20_0000 + entry * 0x1000);
}

#[test]
fn new_thread_records() {
    assert_eq!(ThreadState::new(), ThreadState { edi: 0, esi: 0, ebx: 0, ebp: 0, esp: 0, eip: 0 });
    assert!(!Thread::new().is_alive);
    let mut s = Scheduler::new();
    s.spawn_thread(0x1000, 0x2000, 0x3000, 0x40_0000);
    let t = s.ready_threads[0];
    assert!(t.is_alive);
    assert_eq!(t.exec_state.eip, 0x1000);
    assert_eq!(t.exec_state.ebx, 0x2000);
    assert_eq!(t.exec_state.esi, 0x3000);
    assert_eq!(t.exec_state.esp, 0x40_1000);
}

#[test]
fn reschedule_without_threads_is_a_no_op() {
    let mut s = Scheduler::new();
    assert!(!s.needs_save());
    assert_eq!(s.reschedule(None), None);
    assert!(s.running_thread.is_none());
    assert!(!s.alive);
    assert_eq!(s.ready_count(), 0);
}

#[test]
fn newest_spawn_runs_first_then_round_robin() {
    let mut s = Scheduler::new();
    spawned(&mut s, 1);
    spawned(&mut s, 2);
    spawned(&mut s, 3);
    assert!(!s.needs_save());
    let mut order = Vec::new();
    let first = s.reschedule(None).unwrap();
    order.push(first.ebx);
    for _ in 0..5 {
        assert!(s.needs_save());
        let running = s.running_thread.unwrap().exec_state;
        let next = s.reschedule(Some(running)).unwrap();
        order.push(next.ebx);
    }
    assert_eq!(order, vec![3, 2, 1, 3, 2, 1]);
}

#[test]
fn saved_context_is_resumed() {
    let mut s = Scheduler::new();
    spawned(&mut s, 1);
    spawned(&mut s, 2);
    s.reschedule(None);
    let mut ctx = s.running_thread.unwrap().exec_state;
    ctx.esp = 0xAAAA;
    s.reschedule(Some(ctx));
    let back = s.reschedule(Some(ThreadState::new())).unwrap();
    assert_eq!(back.esp, 0xAAAA);
    assert_eq!(back.ebx, 2);
}

#[test]
fn terminated_thread_leaves_the_rotation() {
    let mut s = Scheduler::new();
    spawned(&mut s, 1);
    spawned(&mut s, 2);
    s.reschedule(None);
    s.thread_terminate();
    assert!(!s.running_thread.unwrap().is_alive);
    assert!(!s.needs_save());
    assert_eq!(s.reschedule(None).unwrap().ebx, 1);
    assert_eq!(s.ready_count(), 0);
    assert_eq!(s.reschedule(None), None);
}

#[test]
fn lock_twice_is_a_deadlock() {
    let mut l = Spinlock::new(5u32);
    assert_eq!(l.lock_violation(), None);
    l.lock(true);
    assert!(l.is_locked());
    assert_eq!(l.lock_violation(), Some(LockError::Deadlock));
    assert_eq!(l.try_lock(false), Err(TryLockError::WouldBlock));
    assert_eq!(l.unlock_violation(), None);
    assert!(l.unlock());
    assert_eq!(l.unlock_violation(), Some(LockError::NotLocked));
    assert_eq!(LockError::Deadlock.message(), "Spinlock deadlock: lock already acquired");
    assert_eq!(LockError::NotLocked.message(), "trying to unlock an already unlocked lock");
}

#[test]
fn unlock_restores_the_interrupt_state_of_its_lock() {
    let mut l = Spinlock::new(());
    l.lock(false);
    assert!(!l.unlock());
    l.try_lock(true).unwrap();
    assert!(l.unlock());
}

#[test]
fn get_mut_reaches_the_data() {
    let mut l = Spinlock::new(1u32);
    *l.get_mut() += 41;
    assert_eq!(l.data, 42);
    assert!(!l.is_locked());
}
