use vstd::prelude::*;

use core::task::Waker;
use embassy_sync::waitqueue::AtomicWaker;

use crate::instance::I2C_COUNT;

verus! {

/// A resumption handle of a suspended task, carried through unopened.
#[verifier::external_type_specification]
#[verifier::external_body]
pub struct ExWaker(Waker);

/// embassy-sync's single-waker notification slot, carried through unopened.
#[verifier::external_type_specification]
#[verifier::external_body]
pub struct ExAtomicWaker(AtomicWaker);

/// Whether the outside slot `s` stores a resumption handle.
pub uninterp spec fn holds_waker(s: AtomicWaker) -> bool;

/// How many times the outside slot `s` has invoked a stored handle.
pub uninterp spec fn wakes_done(s: AtomicWaker) -> nat;

/// Relies on `AtomicWaker::new`: the slot starts with no handle.
#[verifier::external_body]
fn new_slot() -> (r: AtomicWaker)
    ensures
        !holds_waker(r),
        wakes_done(r) == 0,
{
    AtomicWaker::new()
}

/// Relies on `AtomicWaker::register`: the slot then stores a handle (a clone
/// of `w`, or an earlier handle that wakes the same task), and invokes none.
#[verifier::external_body]
fn register_slot(slot: &mut AtomicWaker, w: &Waker)
    ensures
        holds_waker(*final(slot)),
        wakes_done(*final(slot)) == wakes_done(*old(slot)),
{
    slot.register(w)
}

/// Relies on `AtomicWaker::wake`: the stored handle, if any, is invoked once
/// and kept in the slot; with none stored nothing happens.
#[verifier::external_body]
fn wake_slot(slot: &mut AtomicWaker)
    ensures
        holds_waker(*final(slot)) == holds_waker(*old(slot)),
        wakes_done(*final(slot)) == wakes_done(*old(slot)) + if holds_waker(*old(slot)) {
            1nat
        } else {
            0nat
        },
{
    slot.wake()
}

/// Whether a wake of slot `index` invokes a handle, in table `t`.
pub open spec fn wake_invokes(t: Seq<bool>, index: int) -> bool {
    t[index]
}

/// Table `t` after a registration into slot `index`.
pub open spec fn after_register(t: Seq<bool>, index: int) -> Seq<bool> {
    t.update(index, true)
}

/// Table `t` after a wake of slot `index`.
pub open spec fn after_wake(t: Seq<bool>, index: int) -> Seq<bool> {
    t.update(index, false)
}

/// One notification slot per peripheral slot. Beside each outside slot the
/// table records whether a handle was registered since that slot's last
/// wake, so that a wake invokes a registered handle once and only once.
pub struct WakeTable {
    slots: Vec<AtomicWaker>,
    armed: Vec<bool>,
}

impl View for WakeTable {
    type V = Seq<bool>;

    /// Per slot, whether a registered handle awaits its wake.
    closed spec fn view(&self) -> Seq<bool> {
        self.armed@
    }
}

impl WakeTable {
    pub open spec fn wf(&self) -> bool {
        &&& self@.len() == I2C_COUNT
        &&& self.inv()
    }

    /// The outside slots line up with the flags, and every slot flagged as
    /// awaiting a wake stores a handle.
    pub closed spec fn inv(&self) -> bool {
        &&& self.slots@.len() == self.armed@.len()
        &&& forall|i: int|
            0 <= i < self.armed@.len() && #[trigger] self.armed@[i] ==> holds_waker(
                self.slots@[i],
            )
    }

    /// Whether the outside slot `i` stores a handle.
    pub closed spec fn holds(&self, i: int) -> bool {
        holds_waker(self.slots@[i])
    }

    /// How many times slot `i` has invoked a stored handle.
    pub closed spec fn wake_count(&self, i: int) -> nat {
        wakes_done(self.slots@[i])
    }

    /// A table in which no handle is registered.
    pub fn new() -> (r: WakeTable)
        ensures
            r.wf(),
            forall|i: int| 0 <= i < I2C_COUNT ==> !r@[i],
            forall|i: int| 0 <= i < I2C_COUNT ==> !r.holds(i),
            forall|i: int| 0 <= i < I2C_COUNT ==> r.wake_count(i) == 0,
    {
        let mut slots: Vec<AtomicWaker> = Vec::new();
        let mut armed: Vec<bool> = Vec::new();
        let mut k: usize = 0;
        while k < I2C_COUNT
            invariant
                k <= I2C_COUNT,
                slots@.len() == k,
                armed@.len() == k,
                forall|i: int| 0 <= i < k ==> !armed@[i],
                forall|i: int| 0 <= i < k ==> !holds_waker(#[trigger] slots@[i]),
                forall|i: int| 0 <= i < k ==> wakes_done(#[trigger] slots@[i]) == 0,
            decreases I2C_COUNT - k,
        {
            slots.push(new_slot());
            armed.push(false);
            k = k + 1;
        }
        WakeTable { slots, armed }
    }

    /// Whether a registered handle of slot `index` awaits its wake.
    pub fn is_armed(&self, index: usize) -> (r: bool)
        requires
            self.wf(),
            index < I2C_COUNT,
        ensures
            r == self@[index as int],
    {
        self.armed[index]
    }

    /// Stores `w` as the handle of slot `index`, replacing any earlier one.
    pub fn register(&mut self, index: usize, w: &Waker)
        requires
            old(self).wf(),
            index < I2C_COUNT,
        ensures
            final(self).wf(),
            final(self)@ == after_register(old(self)@, index as int),
            final(self).holds(index as int),
            forall|j: int| 0 <= j < I2C_COUNT ==> final(self).wake_count(j) == old(self).wake_count(j),
            forall|j: int|
                0 <= j < I2C_COUNT && j != index ==> final(self).holds(j) == old(self).holds(j),
    {
        let mut slot = self.slots.remove(index);
        register_slot(&mut slot, w);
        self.slots.insert(index, slot);
        self.armed.set(index, true);
        proof {
            assert(self.slots@ =~= old(self).slots@.update(index as int, slot));
        }
    }

    /// Invokes the handle of slot `index`, if one was registered since the
    /// slot's last wake, and clears the slot; says whether it invoked one.
    pub fn wake(&mut self, index: usize) -> (r: bool)
        requires
            old(self).wf(),
            index < I2C_COUNT,
        ensures
            final(self).wf(),
            r == wake_invokes(old(self)@, index as int),
            final(self)@ == after_wake(old(self)@, index as int),
            final(self).wake_count(index as int) == old(self).wake_count(index as int) + if r {
                1nat
            } else {
                0nat
            },
            forall|j: int|
                0 <= j < I2C_COUNT && j != index ==> final(self).wake_count(j) == old(
                    self,
                ).wake_count(j) && final(self).holds(j) == old(self).holds(j),
    {
        if self.armed[index] {
            let mut slot = self.slots.remove(index);
            wake_slot(&mut slot);
            self.slots.insert(index, slot);
            self.armed.set(index, false);
            proof {
                assert(self.slots@ =~= old(self).slots@.update(index as int, slot));
            }
            true
        } else {
            proof {
                assert(self.armed@.update(index as int, false) =~= self.armed@);
            }
            false
        }
    }
}

/// A registration followed by a single wake of the same slot invokes the
/// handle exactly once: that wake invokes it, and a later wake with no
/// registration between finds the slot clear. Other slots are untouched.
pub proof fn lemma_no_lost_wakeup(t: Seq<bool>, index: int)
    requires
        0 <= index < t.len(),
    ensures
        wake_invokes(after_register(t, index), index),
        !wake_invokes(after_wake(after_register(t, index), index), index),
        forall|j: int|
            0 <= j < t.len() && j != index ==> after_wake(after_register(t, index), index)[j]
                == t[j],
{
}

} // verus!
