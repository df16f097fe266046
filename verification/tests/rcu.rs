//! Exercises the cell through its public surface: the read/write/synchronize
//! protocol, the combined update paths, the staged-generation refusal, and
//! the polled non-blocking update.

use rcu::api::Rcu;
use rcu::{AsyncRcu, MutRcu, RcuState};

#[test]
fn new_cell_publishes_initial_value() {
    let mut cell = Rcu::new(0u64);
    let guard = cell.read();
    assert_eq!(*cell.get(&guard), 0);
    assert_eq!(cell.reader_count(), 1);
    cell.release_read(guard);
    assert_eq!(cell.reader_count(), 0);
}

#[test]
fn update_now_round_trip() {
    let mut cell = Rcu::new(0u64);
    cell.update_now(1);
    let guard = cell.read();
    assert_eq!(*cell.get(&guard), 1);
    cell.release_read(guard);
}

#[test]
fn update_now_twice_leaves_second_value_and_nothing_pending() {
    let mut cell = Rcu::new(0u64);
    cell.update_now(1);
    cell.update_now(2);
    let guard = cell.read();
    assert_eq!(*cell.get(&guard), 2);
    cell.release_read(guard);
    // Nothing is pending: the cell is synchronized and a reclaim finds nothing.
    assert_eq!(cell.state(), RcuState::Synchronized);
    let w = cell.write();
    assert_eq!(cell.reclaim(&w), None);
    cell.release_write(w);
}

#[test]
fn second_staging_without_reclaim_is_refused() {
    let mut cell = Rcu::new(1u64);
    let r1 = cell.read();
    let mut w = cell.write();
    assert!(cell.update_locked(2, &mut w).is_ok());
    assert_eq!(cell.state(), RcuState::TwoRep);
    // A reader is present and generation 1 still awaits reclaim: refused,
    // nothing overwritten, the value handed back.
    match cell.update_locked(3, &mut w) {
        Ok(()) => panic!("staging must be refused while a generation is pending"),
        Err(e) => assert_eq!(e.value, 3),
    }
    // The refused attempt changed nothing: new reads still see 2.
    let r2 = cell.read();
    assert_eq!(*cell.get(&r2), 2);
    cell.release_read(r2);
    cell.release_read(r1);
    // After quiescence the write guard's synchronize reclaims generation 1.
    assert_eq!(w.synchronize(&mut cell), Some(1));
    cell.release_write(w);
}

#[test]
fn guard_keeps_observing_its_generation_across_a_publish() {
    let mut cell = Rcu::new(0u64);
    let r1 = cell.read();
    assert_eq!(*cell.get(&r1), 0);
    let mut w = cell.write();
    assert!(cell.update_locked(1, &mut w).is_ok());
    // r1 was issued against generation 0 and still reads exactly that value,
    // while a fresh guard observes the newly published generation.
    assert_eq!(*cell.get(&r1), 0);
    let r2 = cell.read();
    assert_eq!(*cell.get(&r2), 1);
    assert_eq!(*cell.get(&r1), 0);
    cell.release_read(r2);
    cell.release_read(r1);
    assert_eq!(cell.reclaim(&w), Some(0));
    cell.release_write(w);
}

#[test]
fn reader_then_update_then_new_reads_see_new_value() {
    let mut cell = Rcu::new(0u64);
    let r1 = cell.read();
    assert_eq!(*cell.get(&r1), 0);
    // The combined update waits for quiescence, so it can only run once r1 is
    // gone; r1 observed 0 for its whole lifetime.
    cell.release_read(r1);
    cell.update_now(1);
    let r2 = cell.read();
    assert_eq!(*cell.get(&r2), 1);
    cell.release_read(r2);
}

#[test]
fn publish_is_visible_before_any_reclaim() {
    let mut cell = Rcu::new(0u64);
    let mut w = cell.write();
    assert!(cell.update_locked(5, &mut w).is_ok());
    // The guard is dropped without synchronize or reclaim: publication already
    // happened at staging, so a read observes 5 while generation 0 is still
    // pending.
    cell.release_write(w);
    let r = cell.read();
    assert_eq!(*cell.get(&r), 5);
    cell.release_read(r);
    let w2 = cell.write();
    assert_eq!(cell.reclaim(&w2), Some(0));
    cell.release_write(w2);
}

#[test]
fn reads_are_monotone_across_many_updates() {
    let mut cell = Rcu::new(0u64);
    let mut last_seen: u64 = 0;
    for i in 1..=1000u64 {
        cell.update_now(i);
        let r = cell.read();
        let seen = *cell.get(&r);
        cell.release_read(r);
        assert!(seen >= last_seen);
        last_seen = seen;
    }
    assert_eq!(last_seen, 1000);
}

#[test]
fn read_works_while_writer_holds_the_lock() {
    let mut cell = Rcu::new(7u64);
    let w = cell.write();
    // Reading needs no coordination with the writer lock.
    let r = cell.read();
    assert_eq!(*cell.get(&r), 7);
    cell.release_read(r);
    cell.release_write(w);
}

#[test]
fn second_writer_stays_unresolved_until_first_releases() {
    let mut cell = Rcu::new(0u64);
    let w1 = cell.write();
    assert!(cell.poll_write().is_none());
    assert!(cell.poll_write().is_none());
    cell.release_write(w1);
    let w2 = cell.poll_write().expect("lock was released");
    cell.release_write(w2);
}

#[test]
fn reclaim_is_a_noop_without_quiescence_or_pending_generation() {
    let mut cell = Rcu::new(0u64);
    let mut w = cell.write();
    // Nothing pending at all.
    assert_eq!(cell.reclaim(&w), None);
    let r = cell.read();
    assert!(cell.update_locked(1, &mut w).is_ok());
    // A generation is pending but a reader is present: still nothing.
    assert_eq!(cell.reclaim(&w), None);
    cell.release_read(r);
    assert_eq!(cell.reclaim(&w), Some(0));
    cell.release_write(w);
}

#[test]
fn state_reports_the_three_protocol_states() {
    let mut cell = Rcu::new(0u64);
    assert_eq!(cell.state(), RcuState::Synchronized);
    let r = cell.read();
    assert_eq!(cell.state(), RcuState::OneRep);
    let mut w = cell.write();
    assert!(cell.update_locked(1, &mut w).is_ok());
    assert_eq!(cell.state(), RcuState::TwoRep);
    cell.release_read(r);
    assert_eq!(cell.state(), RcuState::Synchronized);
    assert_eq!(cell.reclaim(&w), Some(0));
    cell.release_write(w);
}

#[test]
fn quiescence_poll_tracks_the_reader_count() {
    let mut cell = Rcu::new(0u64);
    assert!(cell.poll_synchronize());
    let r1 = cell.read();
    let r2 = cell.read();
    assert!(!cell.poll_synchronize());
    cell.release_read(r1);
    assert!(!cell.poll_synchronize());
    cell.release_read(r2);
    assert!(cell.poll_synchronize());
    cell.synchronize();
}

#[test]
fn polled_update_resolves_only_after_outstanding_guards_drop() {
    let mut cell = Rcu::new(7u64);
    let r1 = cell.read();
    let fut = cell.update_later(9);
    // First poll takes the lock and stages: published at once, not resolved.
    let fut = cell.poll_update(fut);
    assert!(!fut.done());
    // A read issued while the update is suspended observes the current value.
    let r2 = cell.read();
    assert_eq!(*cell.get(&r2), 9);
    cell.release_read(r2);
    // Still a guard from before the update outstanding: stays unresolved.
    let fut = cell.poll_update(fut);
    assert!(!fut.done());
    cell.release_read(r1);
    // Quiescent at last: reclaim, release, resolve.
    let fut = cell.poll_update(fut);
    assert!(fut.done());
    let r3 = cell.read();
    assert_eq!(*cell.get(&r3), 9);
    cell.release_read(r3);
    assert_eq!(cell.state(), RcuState::Synchronized);
    let w = cell.write();
    cell.release_write(w);
}

#[test]
fn polled_update_waits_for_a_contended_lock() {
    let mut cell = Rcu::new(0u64);
    let w = cell.write();
    let fut = cell.update_later(3);
    let fut = cell.poll_update(fut);
    assert!(!fut.done());
    // The other writer still holds the lock; nothing was published.
    let r = cell.read();
    assert_eq!(*cell.get(&r), 0);
    cell.release_read(r);
    cell.release_write(w);
    let fut = cell.poll_update(fut);
    let fut = cell.poll_update(fut);
    assert!(fut.done());
    let r2 = cell.read();
    assert_eq!(*cell.get(&r2), 3);
    cell.release_read(r2);
}

#[test]
fn polled_update_retries_after_reclaiming_a_pending_generation() {
    let mut cell = Rcu::new(0u64);
    // Leave generation 0 pending with a reader present.
    let r1 = cell.read();
    let mut w = cell.write();
    assert!(cell.update_locked(1, &mut w).is_ok());
    cell.release_write(w);
    // The polled update acquires the lock but staging is refused: TwoRep.
    let fut = cell.update_later(2);
    let fut = cell.poll_update(fut);
    assert!(!fut.done());
    let r2 = cell.read();
    assert_eq!(*cell.get(&r2), 1);
    cell.release_read(r2);
    // Readers still present: suspended awaiting quiescence before the retry.
    let fut = cell.poll_update(fut);
    assert!(!fut.done());
    cell.release_read(r1);
    // Reclaims generation 0, retries the staging (which can no longer be
    // refused), then one more poll finds quiescence and resolves.
    let fut = cell.poll_update(fut);
    assert!(!fut.done());
    let fut = cell.poll_update(fut);
    assert!(fut.done());
    let r3 = cell.read();
    assert_eq!(*cell.get(&r3), 2);
    cell.release_read(r3);
}

#[test]
fn exclusive_borrow_surface_updates_and_reports_refusal() {
    let mut cell = Rcu::new(4u64);
    cell.mut_update_synced(6);
    let r = cell.read();
    assert_eq!(*cell.get(&r), 6);
    // Unsynced publish with a reader present: allowed, generation 6 pending.
    assert!(cell.mut_update_unsynced(8).is_ok());
    assert_eq!(*cell.get(&r), 6);
    let r2 = cell.read();
    assert_eq!(*cell.get(&r2), 8);
    cell.release_read(r2);
    // A second unsynced publish while 6 is pending and a reader present:
    // refused with the value handed back.
    match cell.mut_update_unsynced(9) {
        Ok(()) => panic!("unsynced publish must be refused in TwoRep"),
        Err(e) => assert_eq!(e.value, 9),
    }
    cell.release_read(r);
    let w = cell.mut_write();
    assert_eq!(cell.reclaim(&w), Some(6));
    cell.release_write(w);
}

#[test]
fn write_guard_synchronize_reclaims_once_quiescent() {
    let mut cell = Rcu::new(10u64);
    let mut w = cell.write();
    assert!(cell.update_locked(11, &mut w).is_ok());
    assert_eq!(w.synchronize(&mut cell), Some(10));
    // A second synchronize finds nothing left to reclaim.
    assert_eq!(w.synchronize(&mut cell), None);
    cell.release_write(w);
}

#[test]
fn many_guards_count_and_release_exactly() {
    let mut cell = Rcu::new(1u64);
    let mut guards = Vec::new();
    for _ in 0..100 {
        guards.push(cell.read());
    }
    assert_eq!(cell.reader_count(), 100);
    for g in guards {
        assert_eq!(*cell.get(&g), 1);
        cell.release_read(g);
    }
    assert_eq!(cell.reader_count(), 0);
}
