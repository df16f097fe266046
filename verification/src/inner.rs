//! Slot storage and the writer lock: two fixed storage locations, an indicator
//! of which one is published, and the test-and-set flag that serializes
//! writers. This layer knows nothing of readers; the reader counter and the
//! grace-period rules live one level up.

use vstd::prelude::*;

verus! {

/// One of the two fixed storage locations: either empty or holding a fully
/// constructed value. Tracking emptiness explicitly is what lets the arena get
/// by without any uninitialized-memory reasoning.
pub(crate) enum Slot<T> {
    Empty,
    Holding(T),
}

/// The storage core: the `left` and `right` slots, the indicator of which slot
/// is published (`use_left`), and the writer lock.
pub(crate) struct RcuInner<T> {
    pub left: Slot<T>,
    pub right: Slot<T>,
    pub use_left: bool,
    pub writer_locked: bool,
}

/// Witness that the writer lock of a cell is held. It can only be produced by
/// acquiring the lock and is surrendered to release it, so at most one exists
/// per cell at a time.
pub struct InnerGuard {
    mark: (),
}

impl<T> RcuInner<T> {
    /// The published slot.
    pub(crate) open spec fn cur_slot(&self) -> Slot<T> {
        if self.use_left {
            self.left
        } else {
            self.right
        }
    }

    /// The non-published slot.
    pub(crate) open spec fn old_slot(&self) -> Slot<T> {
        if self.use_left {
            self.right
        } else {
            self.left
        }
    }

    /// The index, 0 for `left` and 1 for `right`, of the published slot.
    pub(crate) open spec fn cur_index(&self) -> nat {
        if self.use_left {
            0
        } else {
            1
        }
    }

    /// The published slot always holds a value.
    pub(crate) open spec fn wf(&self) -> bool {
        self.cur_slot() is Holding
    }

    /// A fresh core: the initial value sits in the left slot, which is
    /// published; the right slot is empty and the lock is free.
    pub(crate) fn new(data: T) -> (r: Self)
        ensures
            r.wf(),
            r.use_left,
            !r.writer_locked,
            r.cur_slot() == Slot::Holding(data),
            r.old_slot() is Empty,
    {
        RcuInner { left: Slot::Holding(data), right: Slot::Empty, use_left: true, writer_locked: false }
    }

    /// One attempt at the writer lock: takes it if it is free, reports failure
    /// otherwise. This is the whole decision a spinning or polling acquirer
    /// repeats.
    pub(crate) fn try_lock(&mut self) -> (r: Option<InnerGuard>)
        ensures
            r is Some <==> !old(self).writer_locked,
            final(self).writer_locked,
            final(self).left == old(self).left,
            final(self).right == old(self).right,
            final(self).use_left == old(self).use_left,
    {
        if !self.writer_locked {
            self.writer_locked = true;
            Some(InnerGuard { mark: () })
        } else {
            None
        }
    }

    /// Acquires the writer lock. A concurrent engine would spin on `try_lock`
    /// here; under verification the lock must be known free, since no other
    /// party could ever release it while we hold the cell exclusively.
    pub(crate) fn lock(&mut self) -> (r: InnerGuard)
        requires
            !old(self).writer_locked,
        ensures
            final(self).writer_locked,
            final(self).left == old(self).left,
            final(self).right == old(self).right,
            final(self).use_left == old(self).use_left,
    {
        self.writer_locked = true;
        InnerGuard { mark: () }
    }

    /// Releases the writer lock, surrendering the witness.
    pub(crate) fn unlock(&mut self, guard: InnerGuard)
        requires
            old(self).writer_locked,
        ensures
            !final(self).writer_locked,
            final(self).left == old(self).left,
            final(self).right == old(self).right,
            final(self).use_left == old(self).use_left,
    {
        let InnerGuard { mark: _ } = guard;
        self.writer_locked = false;
    }

    /// A borrow of the published value.
    pub(crate) fn current(&self) -> (r: &T)
        requires
            self.wf(),
        ensures
            self.cur_slot() == Slot::Holding(*r),
    {
        if self.use_left {
            match &self.left {
                Slot::Holding(v) => v,
                Slot::Empty => unreached(),
            }
        } else {
            match &self.right {
                Slot::Holding(v) => v,
                Slot::Empty => unreached(),
            }
        }
    }

    /// A borrow of the value in the non-published slot, where one is pending.
    pub(crate) fn old_value(&self) -> (r: &T)
        requires
            self.old_slot() is Holding,
        ensures
            self.old_slot() == Slot::Holding(*r),
    {
        if self.use_left {
            match &self.right {
                Slot::Holding(v) => v,
                Slot::Empty => unreached(),
            }
        } else {
            match &self.left {
                Slot::Holding(v) => v,
                Slot::Empty => unreached(),
            }
        }
    }

    /// Whether the non-published slot holds a generation awaiting reclaim.
    pub(crate) fn has_old(&self) -> (r: bool)
        ensures
            r == (self.old_slot() is Holding),
    {
        if self.use_left {
            match &self.right {
                Slot::Holding(_) => true,
                Slot::Empty => false,
            }
        } else {
            match &self.left {
                Slot::Holding(_) => true,
                Slot::Empty => false,
            }
        }
    }

    /// Stages `new` into the empty non-published slot and publishes it at once
    /// by flipping the indicator. The generation it displaces stays behind in
    /// what is now the non-published slot. Only a holder of the writer lock may
    /// do this.
    pub(crate) fn update(&mut self, new: T)
        requires
            old(self).wf(),
            old(self).writer_locked,
            old(self).old_slot() is Empty,
        ensures
            final(self).wf(),
            final(self).writer_locked,
            final(self).use_left == !old(self).use_left,
            final(self).cur_slot() == Slot::Holding(new),
            final(self).old_slot() == old(self).cur_slot(),
    {
        if self.use_left {
            self.right = Slot::Holding(new);
            self.use_left = false;
        } else {
            self.left = Slot::Holding(new);
            self.use_left = true;
        }
    }

    /// Empties the non-published slot, handing out whatever generation it
    /// held. Only a holder of the writer lock may do this; whether it is safe
    /// (no reader left on that slot) is the caller's charge.
    pub(crate) fn take_old(&mut self) -> (r: Option<T>)
        requires
            old(self).writer_locked,
        ensures
            final(self).writer_locked,
            final(self).use_left == old(self).use_left,
            final(self).cur_slot() == old(self).cur_slot(),
            final(self).old_slot() is Empty,
            match r {
                Some(v) => old(self).old_slot() == Slot::Holding(v),
                None => old(self).old_slot() is Empty && *final(self) == *old(self),
            },
    {
        let mut out = Slot::Empty;
        if self.use_left {
            core::mem::swap(&mut self.right, &mut out);
        } else {
            core::mem::swap(&mut self.left, &mut out);
        }
        match out {
            Slot::Holding(v) => Some(v),
            Slot::Empty => None,
        }
    }
}

} // verus!
