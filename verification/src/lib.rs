//! A read-copy-update (RCU) cell: one shared value, wait-free readers, a
//! single serialized writer that publishes a new generation and reclaims the
//! old one once no reader can still observe it.
//!
//! The cell keeps exactly two slots. Readers take the published slot under a
//! shared counter; a writer stages the next value into the other slot,
//! publishes it by flipping the current-slot index, waits until the reader
//! counter reaches zero (the grace period), and then reclaims the displaced
//! generation. Everything the protocol decides is specified against the
//! abstract state in [`model`], and the laws of the protocol are proved there.
//!
//! The capability set comes in three layers, all carried by the one engine
//! [`api::Rcu`]: the core [`Rcu`] protocol, the exclusive-borrow
//! convenience surface [`MutRcu`], and the cooperatively polled surface
//! [`AsyncRcu`] whose suspension points — awaiting the writer lock and
//! awaiting quiescence — are plain readiness checks a scheduler repeats.

mod adapter;
pub mod api;
mod inner;
mod model;

pub use adapter::UpdateLater;
pub use api::{NeedsReclaim, RcuReadGuard, RcuWriteGuard};
pub use inner::InnerGuard;
pub use model::{GuardModel, RcuModel, RcuState};

use vstd::prelude::*;

verus! {

/// The core capability set of the cell: take read guards, take the write
/// guard, observe quiescence, and run the combined update path. One engine,
/// [`api::Rcu`], implements it; the contracts pin every operation to a
/// transition of [`RcuModel`].
pub trait Rcu<T>: Sized {
    /// The engine's representation invariant.
    spec fn inv(&self) -> bool;

    /// The abstract state all contracts speak of.
    spec fn model(&self) -> RcuModel<T>;

    /// Takes a read guard on the published generation. It never waits and
    /// never fails, whatever a writer is doing: its precondition says nothing
    /// of the writer lock or of a pending generation, only that the reader
    /// counter has room for one more.
    fn read(&mut self) -> (g: RcuReadGuard<T>)
        requires
            old(self).inv(),
            old(self).model().readers < usize::MAX,
        ensures
            final(self).inv(),
            final(self).model() == old(self).model().read_tr(),
            g@ == old(self).model().fresh_guard(),
    ;

    /// Takes the write guard: the exclusive right to stage and reclaim. A
    /// concurrent engine spins on the lock here; under verification the lock
    /// must be known free, since with the cell held exclusively no other
    /// party could ever release it.
    fn write(&mut self) -> (g: RcuWriteGuard)
        requires
            old(self).inv(),
            old(self).model().lock_enabled(),
        ensures
            final(self).inv(),
            final(self).model() == old(self).model().lock_tr(),
    ;

    /// The grace period: wait until the reader counter reads zero, after
    /// which no guard created before a publish can still be alive. A
    /// concurrent engine busy-waits here with no timeout, hanging forever if
    /// a guard is leaked; under verification the caller must already have
    /// quiescence in hand, since no other party could release a guard while
    /// it waits.
    fn synchronize(&self)
        requires
            self.inv(),
            self.model().readers == 0,
    ;

    /// The combined update path: lock, stage, publish, wait out the grace
    /// period, reclaim, unlock. On return the new value is published and
    /// nothing is left pending. Staging cannot be refused on this path: with
    /// no readers the state is `Synchronized`, never `TwoRep`.
    fn update_now(&mut self, data: T)
        requires
            old(self).inv(),
            old(self).model().readers == 0,
            old(self).model().lock_enabled(),
        ensures
            final(self).inv(),
            final(self).model() == old(self).model().update_now_tr(data),
    ;
}

/// The exclusive-borrow convenience surface: the same writer operations for a
/// caller that owns the cell outright and so holds writer exclusion by the
/// borrow itself.
pub trait MutRcu<T>: Rcu<T> {
    /// Takes the write guard under an exclusive borrow.
    fn mut_write(&mut self) -> (g: RcuWriteGuard)
        requires
            old(self).inv(),
            old(self).model().lock_enabled(),
        ensures
            final(self).inv(),
            final(self).model() == old(self).model().lock_tr(),
    ;

    /// Publishes `new` after waiting out the grace period; nothing pending
    /// afterwards. The exclusive-borrow spelling of the combined update.
    fn mut_update_synced(&mut self, new: T)
        requires
            old(self).inv(),
            old(self).model().readers == 0,
            old(self).model().lock_enabled(),
        ensures
            final(self).inv(),
            final(self).model() == old(self).model().update_now_tr(new),
    ;

    /// Publishes `new` without waiting for quiescence, leaving the displaced
    /// generation pending for a later reclaim. Refused, with the value handed
    /// back, exactly when a staged generation already awaits reclaim while
    /// readers are present.
    fn mut_update_unsynced(&mut self, new: T) -> (r: Result<(), NeedsReclaim<T>>)
        requires
            old(self).inv(),
            old(self).model().lock_enabled(),
        ensures
            final(self).inv(),
            match r {
                Ok(()) => !old(self).model().stage_refused() && final(self).model() == old(self).model().lock_tr().stage_tr(new).unlock_tr(),
                Err(e) => old(self).model().stage_refused() && final(self).model() == old(self).model() && e.value == new,
            },
    ;
}

/// The cooperatively polled surface: the same mutual exclusion and
/// quiescence-wait semantics as [`Rcu`], but each wait is a readiness check a
/// scheduler repeats instead of a busy-wait occupying the thread. The two
/// suspension points are exactly awaiting the writer lock and awaiting
/// quiescence; nothing else suspends, and no wake-up is ever registered.
pub trait AsyncRcu<T>: Rcu<T> {
    /// One poll of "awaiting the writer lock": resolves with the guard the
    /// instant the lock is free, stays unresolved while another writer holds
    /// it.
    fn poll_write(&mut self) -> (r: Option<RcuWriteGuard>)
        requires
            old(self).inv(),
        ensures
            final(self).inv(),
            match r {
                Some(_) => old(self).model().lock_enabled() && final(self).model() == old(self).model().lock_tr(),
                None => !old(self).model().lock_enabled() && final(self).model() == old(self).model(),
            },
    ;

    /// One poll of "awaiting quiescence": ready exactly when the reader
    /// counter reads zero.
    fn poll_synchronize(&self) -> (r: bool)
        requires
            self.inv(),
        ensures
            r == (self.model().readers == 0),
    ;

    /// One poll of an in-flight non-blocking update. Resolution happens only
    /// in a poll that finds the reader counter at zero: every read guard
    /// outstanding when the update began has been dropped by then. From the
    /// moment the target is staged (`step.published()`), it is the value every
    /// new read observes — readers never see a half-published state — and the
    /// history only ever grows.
    fn poll_update(&mut self, step: UpdateLater<T>) -> (next: UpdateLater<T>)
        requires
            old(self).inv(),
            step.inv(old(self).model()),
        ensures
            final(self).inv(),
            step is AwaitLock && !old(self).model().lock_enabled() ==> next == step
                && final(self).model() == old(self).model(),
            step is AwaitLock && old(self).model().lock_enabled()
                && old(self).model().stage_refused() ==> next is AwaitReclaim
                && final(self).model() == old(self).model().lock_tr(),
            step is AwaitLock && old(self).model().lock_enabled()
                && !old(self).model().stage_refused() ==> next is AwaitQuiesce
                && final(self).model() == old(self).model().lock_tr().stage_tr(step.target_of()),
            step is AwaitReclaim && old(self).model().readers > 0 ==> next == step
                && final(self).model() == old(self).model(),
            step is AwaitReclaim && old(self).model().readers == 0 ==> next is AwaitQuiesce
                && final(self).model() == old(self).model().reclaim_tr().stage_tr(step.target_of()),
            step is AwaitQuiesce && old(self).model().readers > 0 ==> next == step
                && final(self).model() == old(self).model(),
            step is AwaitQuiesce && old(self).model().readers == 0 ==> next is Done
                && final(self).model() == old(self).model().reclaim_tr().unlock_tr(),
            next.inv(final(self).model()),
            next.target_of() == step.target_of(),
            old(self).model().hist.is_prefix_of(final(self).model().hist),
            next.is_done() && !step.is_done() ==> old(self).model().readers == 0 && final(self).model().value() == step.target_of() && !final(self).model().pending && !final(self).model().locked,
            step.is_done() ==> next == step && final(self).model() == old(self).model(),
            step.published() ==> next.published(),
            step is AwaitQuiesce ==> final(self).model().value() == step.target_of(),
    ;
}

} // verus!
