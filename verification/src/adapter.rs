//! The non-blocking update: the combined lock → stage → publish → wait →
//! reclaim chain re-expressed as a state machine that a cooperative scheduler
//! polls. Each poll performs one readiness check — awaiting the writer lock or
//! awaiting quiescence — and advances as far as it can without waiting; no
//! wake-up is registered, the scheduler simply polls again on its own cadence.

use vstd::prelude::*;

use crate::api::{NeedsReclaim, Rcu, RcuWriteGuard};
use crate::model::{lemma_prefix_push, lemma_prefix_reflexive, RcuModel};
use crate::AsyncRcu;

verus! {

/// One in-flight non-blocking update. `AwaitLock` holds the value while the
/// writer lock is contended; `AwaitReclaim` holds it after staging was refused
/// because an older generation still awaits reclaim; `AwaitQuiesce` runs after
/// the value has been published, waiting for the grace period to end; `Done`
/// is resolution. The write guard travels inside the state, so the lock is
/// held from acquisition to resolution and released exactly once.
pub enum UpdateLater<T> {
    AwaitLock { value: T },
    AwaitReclaim { value: T, guard: RcuWriteGuard },
    AwaitQuiesce { guard: RcuWriteGuard, target: Ghost<T> },
    Done { target: Ghost<T> },
}

impl<T> UpdateLater<T> {
    /// The value this update publishes (or has published).
    pub open spec fn target_of(self) -> T {
        match self {
            UpdateLater::AwaitLock { value } => value,
            UpdateLater::AwaitReclaim { value, guard } => value,
            UpdateLater::AwaitQuiesce { guard, target } => target@,
            UpdateLater::Done { target } => target@,
        }
    }

    /// Whether the update has resolved.
    pub open spec fn is_done(self) -> bool {
        self is Done
    }

    /// Whether the target value has already been published: from the moment
    /// staging succeeded, every new read observes it, even though the grace
    /// period and reclaim are still outstanding.
    pub open spec fn published(self) -> bool {
        self is AwaitQuiesce || self is Done
    }

    /// Whether the update has resolved, as runnable code: what a scheduler
    /// checks to stop polling.
    pub fn done(&self) -> (r: bool)
        ensures
            r == self.is_done(),
    {
        match self {
            UpdateLater::Done { .. } => true,
            _ => false,
        }
    }

    /// What must hold between this state and the cell for the next poll to be
    /// meaningful: once the lock is taken the cell stays locked (only this
    /// update can release it), a refused staging means a generation is still
    /// pending, and a published target is the cell's current value.
    pub open spec fn inv(self, m: RcuModel<T>) -> bool {
        match self {
            UpdateLater::AwaitLock { value } => true,
            UpdateLater::AwaitReclaim { value, guard } => m.locked && m.pending,
            UpdateLater::AwaitQuiesce { guard, target } => m.locked && m.value() == target@,
            UpdateLater::Done { target } => true,
        }
    }
}

impl<T> Rcu<T> {
    /// Begins a non-blocking combined update publishing `value`: the returned
    /// state machine is advanced by [`AsyncRcu::poll_update`] until it
    /// resolves. The counterpart of [`Rcu::update_now`] for a caller that must
    /// not busy-wait.
    pub fn update_later(&self, value: T) -> (f: UpdateLater<T>)
        ensures
            f == (UpdateLater::AwaitLock { value }),
    {
        UpdateLater::AwaitLock { value }
    }
}

impl<T> AsyncRcu<T> for Rcu<T> {
    fn poll_write(&mut self) -> (r: Option<RcuWriteGuard>) {
        self.try_write()
    }

    fn poll_synchronize(&self) -> (r: bool) {
        self.reader_count() == 0
    }

    fn poll_update(&mut self, step: UpdateLater<T>) -> (next: UpdateLater<T>) {
        match step {
            UpdateLater::AwaitLock { value } => {
                let ghost t = value;
                match self.try_write() {
                    None => {
                        proof {
                            lemma_prefix_reflexive(self@.hist);
                        }
                        UpdateLater::AwaitLock { value }
                    },
                    Some(mut guard) => {
                        match self.update_locked(value, &mut guard) {
                            Ok(()) => {
                                proof {
                                    lemma_prefix_push(old(self)@.hist, t);
                                }
                                UpdateLater::AwaitQuiesce { guard, target: Ghost(t) }
                            },
                            Err(NeedsReclaim { value }) => {
                                proof {
                                    lemma_prefix_reflexive(self@.hist);
                                }
                                UpdateLater::AwaitReclaim { value, guard }
                            },
                        }
                    },
                }
            },
            UpdateLater::AwaitReclaim { value, mut guard } => {
                let ghost t = value;
                if self.poll_synchronize() {
                    // Quiescence reached: drop the stale generation, then the
                    // retried staging can no longer be refused.
                    let _stale = self.reclaim(&guard);
                    match self.update_locked(value, &mut guard) {
                        Ok(()) => {
                            proof {
                                lemma_prefix_push(old(self)@.hist, t);
                            }
                            UpdateLater::AwaitQuiesce { guard, target: Ghost(t) }
                        },
                        Err(_) => unreached(),
                    }
                } else {
                    proof {
                        lemma_prefix_reflexive(self@.hist);
                    }
                    UpdateLater::AwaitReclaim { value, guard }
                }
            },
            UpdateLater::AwaitQuiesce { guard, target } => {
                proof {
                    lemma_prefix_reflexive(self@.hist);
                }
                if self.poll_synchronize() {
                    let _stale = self.reclaim(&guard);
                    self.release_write(guard);
                    UpdateLater::Done { target }
                } else {
                    UpdateLater::AwaitQuiesce { guard, target }
                }
            },
            UpdateLater::Done { target } => {
                proof {
                    lemma_prefix_reflexive(self@.hist);
                }
                UpdateLater::Done { target }
            },
        }
    }
}

} // verus!
