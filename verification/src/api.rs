//! The engine: slot storage plus the reader counter, with the full read /
//! stage / synchronize / reclaim surface. Every operation's contract pins the
//! new abstract state to one protocol transition of [`crate::model`]. The
//! capability traits at the crate root are all carried by this one type.

use vstd::prelude::*;

use crate::inner::{InnerGuard, RcuInner, Slot};
use crate::model::{GuardModel, RcuModel, RcuState};

verus! {

/// The error a staging attempt reports when a previously staged generation
/// still awaits reclaim while readers are present: nothing was overwritten,
/// and the rejected value is handed back so the caller can reclaim and retry.
pub struct NeedsReclaim<T> {
    pub value: T,
}

/// The RCU cell: two slots, the published-slot indicator, the writer lock and
/// the reader counter, together with the ghost history of published values.
pub struct Rcu<T> {
    pub(crate) inner: RcuInner<T>,
    pub(crate) readers: usize,
    pub(crate) hist: Ghost<Seq<T>>,
}

/// A read guard: it witnesses one generation of the cell and keeps observing
/// exactly that generation's value until it is released. Creating one raised
/// the reader counter; releasing it through [`Rcu::release_read`] is the only
/// way to lower the counter again.
pub struct RcuReadGuard<T> {
    pub(crate) slot: usize,
    pub(crate) gen: Ghost<nat>,
    pub(crate) val: Ghost<T>,
}

/// A write guard: the exclusive right to stage, publish and reclaim. It exists
/// only while the writer lock is held and is surrendered to release the lock.
pub struct RcuWriteGuard {
    pub(crate) token: InnerGuard,
}

impl<T> View for Rcu<T> {
    type V = RcuModel<T>;

    closed spec fn view(&self) -> RcuModel<T> {
        RcuModel {
            hist: self.hist@,
            pending: self.inner.old_slot() is Holding,
            cur: self.inner.cur_index(),
            readers: self.readers as nat,
            locked: self.inner.writer_locked,
        }
    }
}

impl<T> View for RcuReadGuard<T> {
    type V = GuardModel<T>;

    closed spec fn view(&self) -> GuardModel<T> {
        GuardModel { slot: self.slot as nat, gen: self.gen@, val: self.val@ }
    }
}

impl<T> Rcu<T> {
    /// The representation invariant: the abstract state is well formed, the
    /// published slot holds the newest generation of the history, and the
    /// non-current slot, when occupied, holds exactly the generation published
    /// right before it.
    pub closed spec fn wf(&self) -> bool {
        &&& self@.wf()
        &&& self.inner.cur_slot() == Slot::Holding(self.hist@.last())
        &&& (self.inner.old_slot() is Holding ==> self.hist@.len() >= 2 && self.inner.old_slot()
            == Slot::Holding(self.hist@[self.hist@.len() - 2]))
    }

    /// A fresh cell publishing `initial` from slot 0, with no reader, no
    /// pending generation and the writer lock free.
    pub fn new(initial: T) -> (r: Self)
        ensures
            r.wf(),
            r@ == RcuModel::init(initial),
    {
        let ghost v = initial;
        let ghost h = seq![v];
        let r = Rcu { inner: RcuInner::new(initial), readers: 0, hist: Ghost(h) };
        proof {
            assert(r@.hist =~= RcuModel::init(v).hist);
        }
        r
    }

    /// Takes a read guard on the published generation. It never waits and
    /// never fails, whatever a writer is doing: the precondition says nothing
    /// of the writer lock or of a pending generation, only that the reader
    /// counter has room for one more.
    pub fn read(&mut self) -> (g: RcuReadGuard<T>)
        requires
            old(self).wf(),
            old(self)@.readers < usize::MAX,
        ensures
            final(self).wf(),
            final(self)@ == old(self)@.read_tr(),
            g@ == old(self)@.fresh_guard(),
    {
        self.readers = self.readers + 1;
        let slot: usize = if self.inner.use_left {
            0
        } else {
            1
        };
        RcuReadGuard {
            slot,
            gen: Ghost((self.hist@.len() - 1) as nat),
            val: Ghost(self.hist@.last()),
        }
    }

    /// A borrow of the value the guard was issued against. Whatever a writer
    /// has done since, a valid guard still reads the very generation it
    /// witnessed when it was created.
    pub fn get<'a>(&'a self, guard: &RcuReadGuard<T>) -> (r: &'a T)
        requires
            self.wf(),
            self@.guard_ok(guard@),
        ensures
            *r == guard@.val,
    {
        let at_current: bool = if self.inner.use_left {
            guard.slot == 0
        } else {
            guard.slot == 1
        };
        if at_current {
            self.inner.current()
        } else {
            self.inner.old_value()
        }
    }

    /// Releases a read guard, lowering the reader counter. Consuming the guard
    /// here is what keeps the counter an exact count of the guards alive.
    pub fn release_read(&mut self, guard: RcuReadGuard<T>)
        requires
            old(self).wf(),
            old(self)@.guard_ok(guard@),
            old(self)@.readers >= 1,
        ensures
            final(self).wf(),
            final(self)@ == old(self)@.release_tr(),
    {
        let RcuReadGuard { slot: _, gen: _, val: _ } = guard;
        self.readers = self.readers - 1;
    }

    /// Takes the write guard: the exclusive right to stage and reclaim. A
    /// concurrent engine spins on the lock here; under verification the lock
    /// must be known free, since with the cell held exclusively no other
    /// party could ever release it. A poller uses [`Rcu::try_write`] instead.
    pub fn write(&mut self) -> (g: RcuWriteGuard)
        requires
            old(self).wf(),
            old(self)@.lock_enabled(),
        ensures
            final(self).wf(),
            final(self)@ == old(self)@.lock_tr(),
    {
        let token = self.inner.lock();
        RcuWriteGuard { token }
    }

    /// One attempt at the writer lock: the non-blocking half of `write`. A
    /// waiting writer, or a cooperative scheduler, repeats exactly this step.
    pub fn try_write(&mut self) -> (r: Option<RcuWriteGuard>)
        requires
            old(self).wf(),
        ensures
            final(self).wf(),
            match r {
                Some(_) => old(self)@.lock_enabled() && final(self)@ == old(self)@.lock_tr(),
                None => !old(self)@.lock_enabled() && final(self)@ == old(self)@,
            },
    {
        match self.inner.try_lock() {
            Some(token) => Some(RcuWriteGuard { token }),
            None => None,
        }
    }

    /// Stages `value` into the non-current slot and publishes it by flipping
    /// the current-slot indicator. In state `TwoRep` — readers present while a
    /// staged generation still awaits reclaim — it refuses, overwrites
    /// nothing, and hands the value back: the caller must synchronize and
    /// reclaim first. Publication here is what makes the value visible to new
    /// readers; no grace period has run yet, and the displaced generation
    /// stays pending.
    pub fn update_locked(&mut self, value: T, _guard: &mut RcuWriteGuard) -> (r: Result<
        (),
        NeedsReclaim<T>,
    >)
        requires
            old(self).wf(),
            old(self)@.locked,
        ensures
            final(self).wf(),
            match r {
                Ok(()) => !old(self)@.stage_refused() && final(self)@ == old(self)@.stage_tr(
                    value,
                ),
                Err(e) => old(self)@.stage_refused() && final(self)@ == old(self)@ && e.value
                    == value,
            },
    {
        let ghost v = value;
        if self.readers > 0 && self.inner.has_old() {
            Err(NeedsReclaim { value })
        } else {
            let _stale = self.inner.take_old();
            self.inner.update(value);
            self.hist = Ghost(self.hist@.push(v));
            Ok(())
        }
    }

    /// The grace period: wait until the reader counter reads zero, after
    /// which no guard created before a publish can still be alive. The
    /// concurrent engine busy-waits here with no timeout, hanging forever if
    /// a guard is leaked; under verification the caller must already have
    /// quiescence in hand, since no other party could release a guard while
    /// it waits. A poller uses [`crate::AsyncRcu::poll_synchronize`] instead.
    pub fn synchronize(&self)
        requires
            self.wf(),
            self@.readers == 0,
    {
    }

    /// Reclaims the pending generation, handing its value out, provided the
    /// grace period has elapsed (no reader left) and something is pending;
    /// otherwise it is a harmless no-op returning nothing. Requires the writer
    /// lock: only the writer may touch the non-current slot.
    pub fn reclaim(&mut self, _guard: &RcuWriteGuard) -> (r: Option<T>)
        requires
            old(self).wf(),
            old(self)@.locked,
        ensures
            final(self).wf(),
            final(self)@ == old(self)@.reclaim_tr(),
            r == old(self)@.reclaim_result(),
    {
        if self.readers == 0 {
            self.inner.take_old()
        } else {
            None
        }
    }

    /// Releases the writer lock, surrendering the guard. This happens whether
    /// or not the writer ever published or reclaimed: an abandoned staging
    /// leaves its generation pending but frees the lock for the next writer.
    pub fn release_write(&mut self, guard: RcuWriteGuard)
        requires
            old(self).wf(),
            old(self)@.locked,
        ensures
            final(self).wf(),
            final(self)@ == old(self)@.unlock_tr(),
    {
        let RcuWriteGuard { token } = guard;
        self.inner.unlock(token);
    }

    /// The combined update path: lock, stage, publish, wait out the grace
    /// period, reclaim, unlock. On return the new value is published and
    /// nothing is left pending. Staging cannot be refused on this path — with
    /// no readers the state is `Synchronized`, never `TwoRep` — which is
    /// proved, not assumed: the refusal arm is verified unreachable.
    pub fn update_now(&mut self, data: T)
        requires
            old(self).wf(),
            old(self)@.readers == 0,
            old(self)@.lock_enabled(),
        ensures
            final(self).wf(),
            final(self)@ == old(self)@.update_now_tr(data),
    {
        let mut guard = self.write();
        match self.update_locked(data, &mut guard) {
            Ok(()) => (),
            Err(_) => unreached(),
        }
        self.synchronize();
        let _previous = self.reclaim(&guard);
        self.release_write(guard);
    }

    /// The reader counter as it stands: the number of read guards alive.
    pub fn reader_count(&self) -> (r: usize)
        requires
            self.wf(),
        ensures
            r == self@.readers,
    {
        self.readers
    }

    /// The derived protocol state, as the writer's decision logic sees it.
    pub fn state(&self) -> (r: RcuState)
        requires
            self.wf(),
        ensures
            r == self@.state(),
    {
        if self.readers == 0 {
            RcuState::Synchronized
        } else if self.inner.has_old() {
            RcuState::TwoRep
        } else {
            RcuState::OneRep
        }
    }
}

impl<T> crate::Rcu<T> for Rcu<T> {
    open spec fn inv(&self) -> bool {
        self.wf()
    }

    open spec fn model(&self) -> RcuModel<T> {
        self@
    }

    fn read(&mut self) -> (g: RcuReadGuard<T>) {
        self.read()
    }

    fn write(&mut self) -> (g: RcuWriteGuard) {
        self.write()
    }

    fn synchronize(&self) {
        self.synchronize()
    }

    fn update_now(&mut self, data: T) {
        self.update_now(data)
    }
}

impl<T> crate::MutRcu<T> for Rcu<T> {
    fn mut_write(&mut self) -> (g: RcuWriteGuard) {
        self.write()
    }

    fn mut_update_synced(&mut self, new: T) {
        self.update_now(new)
    }

    fn mut_update_unsynced(&mut self, new: T) -> (r: Result<(), NeedsReclaim<T>>) {
        let mut guard = self.write();
        let r = self.update_locked(new, &mut guard);
        self.release_write(guard);
        r
    }
}

impl RcuWriteGuard {
    /// Waits out the grace period and reclaims the pending generation, for a
    /// writer that staged through the decoupled path and now wants the cell
    /// clean. Quiescence must already hold; the reclaimed value, if any, is
    /// returned.
    pub fn synchronize<T>(&self, cell: &mut Rcu<T>) -> (r: Option<T>)
        requires
            old(cell).wf(),
            old(cell)@.locked,
            old(cell)@.readers == 0,
        ensures
            final(cell).wf(),
            final(cell)@ == old(cell)@.reclaim_tr(),
            r == old(cell)@.reclaim_result(),
    {
        cell.synchronize();
        cell.reclaim(self)
    }
}

} // verus!
