use vstd::prelude::*;

use crate::instance::{Info, I2C_COUNT};

verus! {

/// No remediation pending: the initial and the quiescent value.
pub const REMEDIATION_NONE: u8 = 0b0000_0000;

/// A cancelled master operation must force a bus STOP.
pub const REMEDIATION_MASTER_STOP: u8 = 0b0000_0001;

/// A cancelled slave operation must force a NAK response.
pub const REMEDIATION_SLAVE_NAK: u8 = 0b0000_0010;

/// A deferred cleanup action that the interrupt handler performs on behalf
/// of a cancelled task.
#[derive(Debug, Copy, Clone, PartialEq, Eq, Structural)]
pub enum Remediation {
    MasterStop,
    SlaveNak,
}

impl Remediation {
    pub open spec fn spec_bit(self) -> u8 {
        match self {
            Remediation::MasterStop => REMEDIATION_MASTER_STOP,
            Remediation::SlaveNak => REMEDIATION_SLAVE_NAK,
        }
    }

    /// The bit of the flags that records this action.
    pub fn bit(self) -> (r: u8)
        ensures
            r == self.spec_bit(),
    {
        match self {
            Remediation::MasterStop => REMEDIATION_MASTER_STOP,
            Remediation::SlaveNak => REMEDIATION_SLAVE_NAK,
        }
    }
}

/// Whether `flags` hold the bit of `kind`.
pub open spec fn pending(flags: u8, kind: Remediation) -> bool {
    flags & kind.spec_bit() != 0
}

/// `flags` with the bit of `kind` set.
pub open spec fn with_bit(flags: u8, kind: Remediation) -> u8 {
    flags | kind.spec_bit()
}

/// `flags` with the bit of `kind` cleared.
pub open spec fn without_bit(flags: u8, kind: Remediation) -> u8 {
    flags & !kind.spec_bit()
}

/// Whether `flags` hold no bit but those of the recognised remediations.
pub open spec fn valid_flags(flags: u8) -> bool {
    flags <= (REMEDIATION_MASTER_STOP | REMEDIATION_SLAVE_NAK)
}

/// Setting or clearing a recognised bit keeps flags valid; clearing a bit
/// leaves it clear; a valid value with neither bit is none.
pub proof fn lemma_bits_valid(f: u8, kind: Remediation)
    ensures
        valid_flags(f) ==> valid_flags(with_bit(f, kind)),
        valid_flags(f) ==> valid_flags(without_bit(f, kind)),
        !pending(without_bit(f, kind), kind),
        pending(with_bit(f, kind), kind),
        !pending(f, kind) ==> without_bit(f, kind) == f,
        valid_flags(f) && !pending(f, Remediation::MasterStop) && !pending(
            f,
            Remediation::SlaveNak,
        ) ==> f == REMEDIATION_NONE,
{
    assert(REMEDIATION_MASTER_STOP | REMEDIATION_SLAVE_NAK == 3u8) by (bit_vector);
    assert(f <= 3u8 ==> (f | 1u8) <= 3u8) by (bit_vector);
    assert(f <= 3u8 ==> (f | 2u8) <= 3u8) by (bit_vector);
    assert(f <= 3u8 ==> (f & !1u8) <= 3u8) by (bit_vector);
    assert(f <= 3u8 ==> (f & !2u8) <= 3u8) by (bit_vector);
    assert((f & !1u8) & 1u8 == 0) by (bit_vector);
    assert((f & !2u8) & 2u8 == 0) by (bit_vector);
    assert((f | 1u8) & 1u8 != 0) by (bit_vector);
    assert((f | 2u8) & 2u8 != 0) by (bit_vector);
    assert(f & 1u8 == 0 ==> (f & !1u8) == f) by (bit_vector);
    assert(f & 2u8 == 0 ==> (f & !2u8) == f) by (bit_vector);
    assert(f <= 3u8 && f & 1u8 == 0 && f & 2u8 == 0 ==> f == 0) by (bit_vector);
}

/// Clearing one remediation's bit leaves the other's as it was.
pub proof fn lemma_bits_independent(f: u8)
    ensures
        pending(without_bit(f, Remediation::MasterStop), Remediation::SlaveNak) == pending(
            f,
            Remediation::SlaveNak,
        ),
        pending(without_bit(f, Remediation::SlaveNak), Remediation::MasterStop) == pending(
            f,
            Remediation::MasterStop,
        ),
{
    assert((f & !1u8) & 2u8 != 0 <==> f & 2u8 != 0) by (bit_vector);
    assert((f & !2u8) & 1u8 != 0 <==> f & 1u8 != 0) by (bit_vector);
}

/// One remediation bitmask per peripheral slot.
pub struct RemediationTable {
    flags: Vec<u8>,
}

impl View for RemediationTable {
    type V = Seq<u8>;

    closed spec fn view(&self) -> Seq<u8> {
        self.flags@
    }
}

impl RemediationTable {
    pub open spec fn wf(&self) -> bool {
        &&& self@.len() == I2C_COUNT
        &&& forall|i: int| 0 <= i < I2C_COUNT ==> valid_flags(#[trigger] self@[i])
    }

    /// A table in which no remediation is pending.
    pub fn new() -> (r: RemediationTable)
        ensures
            r.wf(),
            forall|i: int| 0 <= i < I2C_COUNT ==> r@[i] == REMEDIATION_NONE,
    {
        let mut flags: Vec<u8> = Vec::new();
        let mut k: usize = 0;
        while k < I2C_COUNT
            invariant
                k <= I2C_COUNT,
                flags@.len() == k,
                forall|i: int| 0 <= i < k ==> flags@[i] == REMEDIATION_NONE,
            decreases I2C_COUNT - k,
        {
            flags.push(REMEDIATION_NONE);
            k = k + 1;
        }
        RemediationTable { flags }
    }

    /// The flags of slot `index`.
    pub fn flags(&self, index: usize) -> (r: u8)
        requires
            self.wf(),
            index < I2C_COUNT,
        ensures
            r == self@[index as int],
    {
        self.flags[index]
    }

    /// Whether no remediation is pending for slot `index`.
    pub fn is_clear(&self, index: usize) -> (r: bool)
        requires
            self.wf(),
            index < I2C_COUNT,
        ensures
            r == (self@[index as int] == REMEDIATION_NONE),
    {
        self.flags[index] == REMEDIATION_NONE
    }

    /// Sets the flags of slot `index` to none, discarding any pending request.
    pub fn force_clear(&mut self, index: usize)
        requires
            old(self).wf(),
            index < I2C_COUNT,
        ensures
            final(self).wf(),
            final(self)@ == old(self)@.update(index as int, REMEDIATION_NONE),
    {
        self.flags.set(index, REMEDIATION_NONE);
    }

    /// Asks the interrupt handler to perform `kind` for slot `index`: the
    /// bit is or-ed into the flags.
    pub fn request(&mut self, index: usize, kind: Remediation)
        requires
            old(self).wf(),
            index < I2C_COUNT,
        ensures
            final(self).wf(),
            final(self)@ == old(self)@.update(index as int, with_bit(old(self)@[index as int], kind)),
    {
        proof {
            lemma_bits_valid(self@[index as int], kind);
        }
        let f = self.flags[index] | kind.bit();
        self.flags.set(index, f);
    }

    /// Reads and clears the bit of `kind` for slot `index` in one step, and
    /// says whether it was set: the action is then owed exactly once.
    pub fn take(&mut self, index: usize, kind: Remediation) -> (r: bool)
        requires
            old(self).wf(),
            index < I2C_COUNT,
        ensures
            final(self).wf(),
            r == pending(old(self)@[index as int], kind),
            final(self)@ == old(self)@.update(
                index as int,
                without_bit(old(self)@[index as int], kind),
            ),
    {
        proof {
            lemma_bits_valid(self@[index as int], kind);
        }
        let old_flags = self.flags[index];
        let bit = kind.bit();
        self.flags.set(index, old_flags & !bit);
        (old_flags & bit) != 0
    }
}

/// Forcing a slot clear when it is already clear changes nothing; forcing
/// it clear while a remediation is pending discards that remediation.
pub proof fn lemma_force_clear_idempotent(t: Seq<u8>, index: int)
    requires
        0 <= index < t.len(),
    ensures
        t[index] == REMEDIATION_NONE ==> t.update(index, REMEDIATION_NONE) == t,
        t.update(index, REMEDIATION_NONE).update(index, REMEDIATION_NONE) == t.update(
            index,
            REMEDIATION_NONE,
        ),
        !pending(t.update(index, REMEDIATION_NONE)[index], Remediation::MasterStop),
        !pending(t.update(index, REMEDIATION_NONE)[index], Remediation::SlaveNak),
{
    assert(t[index] == REMEDIATION_NONE ==> t.update(index, REMEDIATION_NONE) =~= t);
    assert(t.update(index, REMEDIATION_NONE).update(index, REMEDIATION_NONE) =~= t.update(
        index,
        REMEDIATION_NONE,
    ));
    assert(0u8 & 1u8 == 0) by (bit_vector);
    assert(0u8 & 2u8 == 0) by (bit_vector);
}

/// Requesting the same remediation twice leaves the flags as one request does.
pub proof fn lemma_request_idempotent(f: u8, kind: Remediation)
    ensures
        with_bit(with_bit(f, kind), kind) == with_bit(f, kind),
{
    assert((f | 1u8) | 1u8 == f | 1u8) by (bit_vector);
    assert((f | 2u8) | 2u8 == f | 2u8) by (bit_vector);
}

/// Forces the remediation state of a peripheral to none. Meant for a
/// peripheral's (re)initialisation, to recover from a cancellation whose
/// remediation was requested but never performed.
pub fn force_clear_remediation(info: &Info, table: &mut RemediationTable)
    requires
        old(table).wf(),
    ensures
        final(table).wf(),
        final(table)@ == old(table)@.update(info.peripheral.spec_index() as int, REMEDIATION_NONE),
{
    let index = info.index();
    table.force_clear(index);
}

} // verus!
