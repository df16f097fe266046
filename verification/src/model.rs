//! The mathematical model of the cell: its abstract state, the protocol
//! transitions (read, release, lock, unlock, stage, reclaim, combined update),
//! and the laws that hold of them.

use vstd::prelude::*;

verus! {

/// The derived protocol state of a cell: `Synchronized` when no reader is in
/// flight (the old slot, if any, is safe to reclaim), `OneRep` when readers are
/// present and no staged generation awaits reclaim, `TwoRep` when readers are
/// present and a staged generation is still pending. `TwoRep` is what makes a
/// further staging attempt fail.
#[derive(Clone, Copy, Debug, PartialEq, Eq)]
pub enum RcuState {
    Synchronized,
    OneRep,
    TwoRep,
}

/// Abstract state of a cell.
///
/// `hist` is the sequence of every value published so far, oldest first; the
/// published (current) value is its last element. `pending` says whether the
/// previous generation still sits in the non-current slot awaiting reclaim.
/// `cur` is the index (0 or 1) of the slot holding the published value.
/// `readers` counts the read guards currently alive, and `locked` whether a
/// writer holds the staging lock.
pub struct RcuModel<T> {
    pub hist: Seq<T>,
    pub pending: bool,
    pub cur: nat,
    pub readers: nat,
    pub locked: bool,
}

/// Abstract state of a read guard: the slot it was issued against, the
/// generation (index into the history) it observes, and the value of that
/// generation.
pub struct GuardModel<T> {
    pub slot: nat,
    pub gen: nat,
    pub val: T,
}

impl<T> RcuModel<T> {
    /// A cell always has a published value, a slot index of 0 or 1, and a
    /// pending generation only once at least two values have been published.
    pub open spec fn wf(self) -> bool {
        &&& self.hist.len() >= 1
        &&& self.cur < 2
        &&& (self.pending ==> self.hist.len() >= 2)
    }

    /// The published value: the newest generation.
    pub open spec fn value(self) -> T {
        self.hist.last()
    }

    /// The value of the generation awaiting reclaim (meaningful when `pending`).
    pub open spec fn pending_value(self) -> T {
        self.hist[self.hist.len() - 2]
    }

    /// The index of the non-current slot.
    pub open spec fn other(self) -> nat {
        if self.cur == 0 {
            1
        } else {
            0
        }
    }

    /// The derived protocol state.
    pub open spec fn state(self) -> RcuState {
        if self.readers == 0 {
            RcuState::Synchronized
        } else if self.pending {
            RcuState::TwoRep
        } else {
            RcuState::OneRep
        }
    }

    /// Staging is refused exactly in state `TwoRep`: readers are present and the
    /// non-current slot still holds an unreclaimed generation.
    pub open spec fn stage_refused(self) -> bool {
        self.readers > 0 && self.pending
    }

    /// Whether the writer lock can be acquired.
    pub open spec fn lock_enabled(self) -> bool {
        !self.locked
    }

    /// Validity of a read guard against this cell state: the guard observes
    /// either the published generation (in the current slot) or, after one
    /// further publish, the pending generation (in the non-current slot). These
    /// are the only states a live guard can witness, because a second publish
    /// is refused until the pending generation is reclaimed, and reclaim waits
    /// for the reader count to reach zero.
    pub open spec fn guard_ok(self, g: GuardModel<T>) -> bool {
        ||| (g.gen + 1 == self.hist.len() && g.val == self.hist[g.gen as int] && g.slot
            == self.cur)
        ||| (g.gen + 2 == self.hist.len() && g.val == self.hist[g.gen as int] && self.pending
            && g.slot == self.other())
    }

    /// The state of a freshly created cell holding `v`.
    pub open spec fn init(v: T) -> Self {
        RcuModel { hist: seq![v], pending: false, cur: 0, readers: 0, locked: false }
    }

    /// A read: the reader count rises by one; nothing else moves.
    pub open spec fn read_tr(self) -> Self {
        RcuModel {
            hist: self.hist,
            pending: self.pending,
            cur: self.cur,
            readers: self.readers + 1,
            locked: self.locked,
        }
    }

    /// The guard a read issued in this state carries: the newest generation.
    pub open spec fn fresh_guard(self) -> GuardModel<T> {
        GuardModel { slot: self.cur, gen: (self.hist.len() - 1) as nat, val: self.hist.last() }
    }

    /// Dropping a read guard: the reader count falls by one.
    pub open spec fn release_tr(self) -> Self {
        RcuModel {
            hist: self.hist,
            pending: self.pending,
            cur: self.cur,
            readers: (self.readers - 1) as nat,
            locked: self.locked,
        }
    }

    /// Acquiring the writer lock.
    pub open spec fn lock_tr(self) -> Self {
        RcuModel {
            hist: self.hist,
            pending: self.pending,
            cur: self.cur,
            readers: self.readers,
            locked: true,
        }
    }

    /// Releasing the writer lock.
    pub open spec fn unlock_tr(self) -> Self {
        RcuModel {
            hist: self.hist,
            pending: self.pending,
            cur: self.cur,
            readers: self.readers,
            locked: false,
        }
    }

    /// A successful staging: the new value goes into the non-current slot and is
    /// published at once by flipping `cur`; the generation it displaces becomes
    /// pending. Only happens when `!self.stage_refused()`.
    pub open spec fn stage_tr(self, v: T) -> Self {
        RcuModel {
            hist: self.hist.push(v),
            pending: true,
            cur: self.other(),
            readers: self.readers,
            locked: self.locked,
        }
    }

    /// Reclaiming: once no reader is left, the pending generation is dropped
    /// and its slot freed; in any other state nothing happens.
    pub open spec fn reclaim_tr(self) -> Self {
        if self.readers == 0 && self.pending {
            RcuModel {
                hist: self.hist,
                pending: false,
                cur: self.cur,
                readers: self.readers,
                locked: self.locked,
            }
        } else {
            self
        }
    }

    /// What reclaiming hands back: the pending generation's value, exactly when
    /// quiescence has been reached and a generation was pending.
    pub open spec fn reclaim_result(self) -> Option<T> {
        if self.readers == 0 && self.pending {
            Some(self.pending_value())
        } else {
            None
        }
    }

    /// The combined update path: lock, stage, publish, wait out the grace
    /// period, reclaim, unlock — all folded into one step. It applies in states
    /// with no readers (the grace period has elapsed) and leaves nothing
    /// pending.
    pub open spec fn update_now_tr(self, v: T) -> Self {
        RcuModel {
            hist: self.hist.push(v),
            pending: false,
            cur: self.other(),
            readers: 0,
            locked: self.locked,
        }
    }
}

/// Law: every protocol transition preserves well-formedness, so a cell driven
/// only through the protocol can never leave the space of states the
/// contracts speak of.
pub proof fn lemma_transitions_preserve_wf<T>(m: RcuModel<T>, v: T)
    requires
        m.wf(),
    ensures
        m.read_tr().wf(),
        m.release_tr().wf(),
        m.lock_tr().wf(),
        m.unlock_tr().wf(),
        m.stage_tr(v).wf(),
        m.reclaim_tr().wf(),
        m.update_now_tr(v).wf(),
{
}

/// Law: a read guard observes exactly one generation's value for its entire
/// lifetime. While any reader is present, every transition the protocol
/// permits leaves every valid guard valid, still bound to the same generation
/// and the same value: taking or releasing guards and handling the lock touch
/// no slot; staging may only go to the empty slot (it is refused while a
/// generation is pending); and reclaim — the one step that empties a slot —
/// does nothing at all until the reader count is zero, by which time no guard
/// is left to invalidate. A torn read cannot be expressed at all: a slot
/// either holds a whole published value or is empty.
pub proof fn lemma_guard_stable<T>(m: RcuModel<T>, g: GuardModel<T>, v: T)
    requires
        m.wf(),
        m.guard_ok(g),
        m.readers > 0,
    ensures
        m.read_tr().guard_ok(g),
        m.release_tr().guard_ok(g),
        m.lock_tr().guard_ok(g),
        m.unlock_tr().guard_ok(g),
        !m.stage_refused() ==> m.stage_tr(v).guard_ok(g),
        m.reclaim_tr() == m,
{
}

/// Law: reading is possible in every well-formed state — whether or not a
/// writer holds the lock or a generation awaits reclaim — and the guard it
/// yields observes the published value. Taking a guard is one counter step
/// with no wait in it, so a reader returns in bounded time regardless of
/// writer activity.
pub proof fn lemma_read_always_enabled<T>(m: RcuModel<T>)
    requires
        m.wf(),
    ensures
        m.read_tr().wf(),
        m.read_tr().guard_ok(m.fresh_guard()),
        m.fresh_guard().val == m.value(),
{
}

/// Law: at most one write guard is live at any instant. Acquiring the lock
/// leaves it unacquirable until it is released, so a second writer stays
/// blocked (or, polled, stays unresolved) exactly until the first guard is
/// surrendered.
pub proof fn lemma_writer_exclusion<T>(m: RcuModel<T>)
    requires
        m.wf(),
    ensures
        m.lock_tr().locked,
        !m.lock_tr().lock_enabled(),
        m.lock_tr().unlock_tr().lock_enabled(),
{
}

/// Law: staging twice without an intervening reclaim is refused. While
/// readers are present, a successful staging leaves the displaced generation
/// pending, which puts the cell in exactly the state where the next staging
/// attempt fails. (With no readers at all the second staging is allowed: the
/// state is `Synchronized`, the pending generation is safe to drop, and
/// nothing a guard could still observe is overwritten.)
pub proof fn lemma_double_stage_refused<T>(m: RcuModel<T>, v: T)
    requires
        m.wf(),
        !m.stage_refused(),
        m.readers > 0,
    ensures
        m.stage_tr(v).stage_refused(),
{
}

/// Law: the combined update path never surfaces a refusal and composes
/// cleanly — after two updates in immediate succession the second value is
/// published and no generation is left pending.
pub proof fn lemma_update_now_twice<T>(m: RcuModel<T>, v1: T, v2: T)
    requires
        m.wf(),
    ensures
        m.update_now_tr(v1).update_now_tr(v2).wf(),
        m.update_now_tr(v1).update_now_tr(v2).value() == v2,
        !m.update_now_tr(v1).update_now_tr(v2).pending,
        m.update_now_tr(v1).update_now_tr(v2).readers == 0,
{
}

/// Law (round trip): a combined update with `v` followed immediately by a
/// read yields exactly `v`.
pub proof fn lemma_update_then_read<T>(m: RcuModel<T>, v: T)
    requires
        m.wf(),
    ensures
        m.update_now_tr(v).value() == v,
        m.update_now_tr(v).fresh_guard().val == v,
{
}

/// Law: publication happens at staging, not at reclaim. Right after a
/// successful staging — before any grace period has run and with the old
/// generation still pending — the staged value is the published one and every
/// new read observes it.
pub proof fn lemma_publish_before_reclaim<T>(m: RcuModel<T>, v: T)
    requires
        m.wf(),
        !m.stage_refused(),
    ensures
        m.stage_tr(v).wf(),
        m.stage_tr(v).value() == v,
        m.stage_tr(v).fresh_guard().val == v,
        m.stage_tr(v).pending,
{
}

/// Law: the published history only ever grows — no transition discards or
/// reorders generations.
pub proof fn lemma_history_monotonic<T>(m: RcuModel<T>, v: T)
    requires
        m.wf(),
    ensures
        m.hist.is_prefix_of(m.read_tr().hist),
        m.hist.is_prefix_of(m.release_tr().hist),
        m.hist.is_prefix_of(m.lock_tr().hist),
        m.hist.is_prefix_of(m.unlock_tr().hist),
        m.hist.is_prefix_of(m.reclaim_tr().hist),
        m.hist.is_prefix_of(m.stage_tr(v).hist),
        m.hist.is_prefix_of(m.update_now_tr(v).hist),
{
    lemma_prefix_reflexive(m.hist);
    lemma_prefix_push(m.hist, v);
}

/// Law: a reader's successive reads are monotone. Because the history only
/// grows, a guard taken later observes a generation at least as new as one
/// taken earlier, so no reader ever sees a value older than one it already
/// saw.
pub proof fn lemma_reads_monotonic<T>(m1: RcuModel<T>, m2: RcuModel<T>)
    requires
        m1.wf(),
        m2.wf(),
        m1.hist.is_prefix_of(m2.hist),
    ensures
        m1.fresh_guard().gen <= m2.fresh_guard().gen,
        m2.hist[m1.fresh_guard().gen as int] == m1.value(),
{
}

/// A sequence is a prefix of itself.
pub proof fn lemma_prefix_reflexive<T>(s: Seq<T>)
    ensures
        s.is_prefix_of(s),
{
    assert(s =~= s.subrange(0, s.len() as int));
}

/// Appending one element keeps the original sequence a prefix.
pub proof fn lemma_prefix_push<T>(s: Seq<T>, v: T)
    ensures
        s.is_prefix_of(s.push(v)),
{
    assert(s =~= s.push(v).subrange(0, s.len() as int));
}

} // verus!
