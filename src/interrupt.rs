use vstd::prelude::*;

use core::marker::PhantomData;
use core::task::Waker;

use crate::instance::{Info, Instance, I2C_COUNT};
use crate::remediation::{
    lemma_bits_independent, lemma_bits_valid, pending, valid_flags, with_bit, without_bit,
    Remediation, RemediationTable, REMEDIATION_NONE,
};
use crate::wake::{after_register, after_wake, wake_invokes, WakeTable};

verus! {

/// The pending-condition bits of one peripheral, as the handler reads them;
/// also used for the set of interrupt sources to disable.
#[derive(Debug, Copy, Clone, PartialEq, Eq, Structural)]
pub struct IntStatus {
    pub master_pending: bool,
    pub arbitration_loss: bool,
    pub start_stop_error: bool,
    pub slave_pending: bool,
    pub slave_deselected: bool,
}

/// What one run of the interrupt handler asks of the hardware.
#[derive(Debug, Copy, Clone, PartialEq, Eq, Structural)]
pub struct InterruptActions {
    /// Issue a bus STOP on the controller.
    pub issue_stop: bool,
    /// Force a NAK on the bus.
    pub force_nak: bool,
    /// The interrupt sources whose enable bit is to be cleared.
    pub disable: IntStatus,
}

/// The flags of a slot after a handler run that observed `s`: each pending
/// condition with a remediation clears that remediation's bit.
pub open spec fn handled_flags(flags: u8, s: IntStatus) -> u8 {
    let f = if s.master_pending {
        without_bit(flags, Remediation::MasterStop)
    } else {
        flags
    };
    if s.slave_pending {
        without_bit(f, Remediation::SlaveNak)
    } else {
        f
    }
}

/// Whether a handler run that observed `s` issues a STOP, with `flags` before it.
pub open spec fn stop_issued(flags: u8, s: IntStatus) -> bool {
    s.master_pending && pending(flags, Remediation::MasterStop)
}

/// Whether a handler run that observed `s` forces a NAK, with `flags` before it.
pub open spec fn nak_forced(flags: u8, s: IntStatus) -> bool {
    s.slave_pending && pending(flags, Remediation::SlaveNak)
}

/// How many STOPs handler runs that observed `runs` issue, with `flags`
/// before the first and no request between them.
pub open spec fn stops_over_runs(flags: u8, runs: Seq<IntStatus>) -> nat
    decreases runs.len(),
{
    if runs.len() == 0 {
        0
    } else {
        (if stop_issued(flags, runs[0]) {
            1nat
        } else {
            0nat
        }) + stops_over_runs(handled_flags(flags, runs[0]), runs.drop_first())
    }
}

/// How many NAKs handler runs that observed `runs` force, with `flags`
/// before the first and no request between them.
pub open spec fn naks_over_runs(flags: u8, runs: Seq<IntStatus>) -> nat
    decreases runs.len(),
{
    if runs.len() == 0 {
        0
    } else {
        (if nak_forced(flags, runs[0]) {
            1nat
        } else {
            0nat
        }) + naks_over_runs(handled_flags(flags, runs[0]), runs.drop_first())
    }
}

proof fn lemma_handled_bits(f: u8, s: IntStatus)
    ensures
        valid_flags(f) ==> valid_flags(handled_flags(f, s)),
        pending(handled_flags(f, s), Remediation::MasterStop) == (pending(
            f,
            Remediation::MasterStop,
        ) && !s.master_pending),
        pending(handled_flags(f, s), Remediation::SlaveNak) == (pending(f, Remediation::SlaveNak)
            && !s.slave_pending),
{
    lemma_bits_valid(f, Remediation::MasterStop);
    lemma_bits_independent(f);
    let g = if s.master_pending {
        without_bit(f, Remediation::MasterStop)
    } else {
        f
    };
    lemma_bits_valid(g, Remediation::SlaveNak);
    lemma_bits_independent(g);
}

/// A requested action fires at most once, however many handler runs follow
/// the request: a STOP (a NAK) is issued only while its bit is set, and the
/// run that issues it clears the bit.
pub proof fn lemma_remediation_at_most_once(flags: u8, runs: Seq<IntStatus>)
    ensures
        stops_over_runs(flags, runs) <= (if pending(flags, Remediation::MasterStop) {
            1nat
        } else {
            0nat
        }),
        naks_over_runs(flags, runs) <= (if pending(flags, Remediation::SlaveNak) {
            1nat
        } else {
            0nat
        }),
    decreases runs.len(),
{
    if runs.len() > 0 {
        lemma_handled_bits(flags, runs[0]);
        lemma_remediation_at_most_once(handled_flags(flags, runs[0]), runs.drop_first());
    }
}

/// Whether some run in `runs` observed master-pending.
pub open spec fn some_master_pending(runs: Seq<IntStatus>) -> bool {
    exists|k: int| 0 <= k < runs.len() && (#[trigger] runs[k]).master_pending
}

/// Whether some run in `runs` observed slave-pending.
pub open spec fn some_slave_pending(runs: Seq<IntStatus>) -> bool {
    exists|k: int| 0 <= k < runs.len() && (#[trigger] runs[k]).slave_pending
}

proof fn lemma_some_pending_step(runs: Seq<IntStatus>)
    requires
        runs.len() > 0,
    ensures
        some_master_pending(runs) == (runs[0].master_pending || some_master_pending(
            runs.drop_first(),
        )),
        some_slave_pending(runs) == (runs[0].slave_pending || some_slave_pending(
            runs.drop_first(),
        )),
{
    let rest = runs.drop_first();
    if some_master_pending(runs) && !runs[0].master_pending {
        let k = choose|k: int| 0 <= k < runs.len() && (#[trigger] runs[k]).master_pending;
        assert(rest[k - 1] == runs[k]);
    }
    if some_master_pending(rest) {
        let k = choose|k: int| 0 <= k < rest.len() && (#[trigger] rest[k]).master_pending;
        assert(runs[k + 1] == rest[k]);
    }
    if some_slave_pending(runs) && !runs[0].slave_pending {
        let k = choose|k: int| 0 <= k < runs.len() && (#[trigger] runs[k]).slave_pending;
        assert(rest[k - 1] == runs[k]);
    }
    if some_slave_pending(rest) {
        let k = choose|k: int| 0 <= k < rest.len() && (#[trigger] rest[k]).slave_pending;
        assert(runs[k + 1] == rest[k]);
    }
}

/// A requested action fires exactly once over handler runs that follow the
/// request with no request or forced clear between them, if some run
/// observes its pending condition, and never otherwise.
pub proof fn lemma_remediation_exactly_once(flags: u8, runs: Seq<IntStatus>)
    ensures
        stops_over_runs(flags, runs) == (if pending(flags, Remediation::MasterStop)
            && some_master_pending(runs) {
            1nat
        } else {
            0nat
        }),
        naks_over_runs(flags, runs) == (if pending(flags, Remediation::SlaveNak)
            && some_slave_pending(runs) {
            1nat
        } else {
            0nat
        }),
    decreases runs.len(),
{
    if runs.len() > 0 {
        lemma_handled_bits(flags, runs[0]);
        lemma_some_pending_step(runs);
        lemma_remediation_exactly_once(handled_flags(flags, runs[0]), runs.drop_first());
    }
}

/// Two requests of the same remediation before a handler run still give a
/// single action: the flags are those of one request.
pub proof fn lemma_repeated_request_acts_once(flags: u8, kind: Remediation, runs: Seq<IntStatus>)
    ensures
        stops_over_runs(with_bit(with_bit(flags, kind), kind), runs) == stops_over_runs(
            with_bit(flags, kind),
            runs,
        ),
        naks_over_runs(with_bit(with_bit(flags, kind), kind), runs) == naks_over_runs(
            with_bit(flags, kind),
            runs,
        ),
        naks_over_runs(with_bit(flags, kind), runs) <= 1,
        stops_over_runs(with_bit(flags, kind), runs) <= 1,
{
    crate::remediation::lemma_request_idempotent(flags, kind);
    lemma_remediation_at_most_once(with_bit(flags, kind), runs);
}

/// With no further request, one handler run that observes the pending
/// condition of every remediation still set leaves the slot clear, so the
/// next poll of a wait for a clear slot completes.
pub proof fn lemma_await_clear_terminates(flags: u8, s: IntStatus)
    requires
        valid_flags(flags),
        pending(flags, Remediation::MasterStop) ==> s.master_pending,
        pending(flags, Remediation::SlaveNak) ==> s.slave_pending,
    ensures
        handled_flags(flags, s) == REMEDIATION_NONE,
{
    lemma_handled_bits(flags, s);
    lemma_bits_valid(handled_flags(flags, s), Remediation::MasterStop);
}

/// The state shared between the tasks and the interrupt handler.
pub struct Shared {
    pub wakers: WakeTable,
    pub remediation: RemediationTable,
}

impl Shared {
    pub open spec fn wf(&self) -> bool {
        self.wakers.wf() && self.remediation.wf()
    }

    /// Shared state with no handle registered and no remediation pending.
    pub fn new() -> (r: Shared)
        ensures
            r.wf(),
            forall|i: int| 0 <= i < I2C_COUNT ==> !r.wakers@[i],
            forall|i: int| 0 <= i < I2C_COUNT ==> !r.wakers.holds(i),
            forall|i: int| 0 <= i < I2C_COUNT ==> r.wakers.wake_count(i) == 0,
            forall|i: int| 0 <= i < I2C_COUNT ==> r.remediation@[i] == REMEDIATION_NONE,
    {
        let wakers = WakeTable::new();
        let remediation = RemediationTable::new();
        Shared { wakers, remediation }
    }

    /// First step of one interrupt of the peripheral `info`, whose pending
    /// conditions are `status`: consumes due remediations exactly once and
    /// names the hardware actions and the sources to disable. The wake comes
    /// after those writes, in `finish_interrupt`.
    pub fn handle_interrupt(&mut self, info: &Info, status: IntStatus) -> (r: InterruptActions)
        requires
            old(self).wf(),
        ensures
            final(self).wf(),
            final(self).wakers == old(self).wakers,
            ({
                let i = info.peripheral.spec_index() as int;
                let flags = old(self).remediation@[i];
                &&& r.issue_stop == stop_issued(flags, status)
                &&& r.force_nak == nak_forced(flags, status)
                &&& r.disable == status
                &&& final(self).remediation@ == old(self).remediation@.update(
                    i,
                    handled_flags(flags, status),
                )
            }),
    {
        let index = info.index();
        proof {
            crate::remediation::lemma_bits_independent(self.remediation@[index as int]);
        }
        let mut issue_stop = false;
        let mut force_nak = false;
        if status.master_pending {
            issue_stop = self.remediation.take(index, Remediation::MasterStop);
        }
        if status.slave_pending {
            force_nak = self.remediation.take(index, Remediation::SlaveNak);
        }
        proof {
            let flags = old(self).remediation@[index as int];
            assert(self.remediation@ =~= old(self).remediation@.update(
                index as int,
                handled_flags(flags, status),
            ));
        }
        InterruptActions { issue_stop, force_nak, disable: status }
    }

    /// Last step of one interrupt of the peripheral `info`: wakes its slot
    /// once, whatever conditions were pending; says whether a handle was
    /// invoked.
    pub fn finish_interrupt(&mut self, info: &Info) -> (r: bool)
        requires
            old(self).wf(),
        ensures
            final(self).wf(),
            final(self).remediation == old(self).remediation,
            ({
                let i = info.peripheral.spec_index() as int;
                &&& r == wake_invokes(old(self).wakers@, i)
                &&& final(self).wakers@ == after_wake(old(self).wakers@, i)
                &&& final(self).wakers.wake_count(i) == old(self).wakers.wake_count(i) + if r {
                    1nat
                } else {
                    0nat
                }
                &&& forall|j: int|
                    0 <= j < I2C_COUNT && j != i ==> final(self).wakers.wake_count(j) == old(
                        self,
                    ).wakers.wake_count(j) && final(self).wakers.holds(j) == old(
                        self,
                    ).wakers.holds(j)
            }),
    {
        let index = info.index();
        self.wakers.wake(index)
    }

    /// Registers `w` for slot `info`'s events and reports whether the slot's
    /// remediation is complete: one poll of the wait for a clear slot.
    pub fn poll_remediation_clear(&mut self, info: &Info, w: &Waker) -> (r: bool)
        requires
            old(self).wf(),
        ensures
            final(self).wf(),
            final(self).remediation == old(self).remediation,
            ({
                let i = info.peripheral.spec_index() as int;
                &&& final(self).wakers@ == after_register(old(self).wakers@, i)
                &&& final(self).wakers.holds(i)
                &&& forall|j: int|
                    0 <= j < I2C_COUNT ==> final(self).wakers.wake_count(j) == old(
                        self,
                    ).wakers.wake_count(j)
                &&& forall|j: int|
                    0 <= j < I2C_COUNT && j != i ==> final(self).wakers.holds(j) == old(
                        self,
                    ).wakers.holds(j)
                &&& r == (old(self).remediation@[i] == REMEDIATION_NONE)
            }),
    {
        let index = info.index();
        self.wakers.register(index, w);
        self.remediation.is_clear(index)
    }
}

/// The interrupt handler of the instance type `T`.
pub struct InterruptHandler<T: Instance> {
    _phantom: PhantomData<T>,
}

impl<T: Instance> InterruptHandler<T> {
    /// First step of one interrupt of `T`, whose pending conditions are
    /// `status`; `wake` is the last.
    pub fn on_interrupt(shared: &mut Shared, status: IntStatus) -> (r: InterruptActions)
        requires
            old(shared).wf(),
        ensures
            final(shared).wf(),
            final(shared).wakers == old(shared).wakers,
            ({
                let i = T::spec_peripheral().spec_index() as int;
                let flags = old(shared).remediation@[i];
                &&& r.issue_stop == stop_issued(flags, status)
                &&& r.force_nak == nak_forced(flags, status)
                &&& r.disable == status
                &&& final(shared).remediation@ == old(shared).remediation@.update(
                    i,
                    handled_flags(flags, status),
                )
            }),
    {
        let info = T::peripheral().info();
        shared.handle_interrupt(&info, status)
    }

    /// Last step of one interrupt of `T`: wakes its slot once.
    pub fn wake(shared: &mut Shared) -> (r: bool)
        requires
            old(shared).wf(),
        ensures
            final(shared).wf(),
            final(shared).remediation == old(shared).remediation,
            ({
                let i = T::spec_peripheral().spec_index() as int;
                &&& r == wake_invokes(old(shared).wakers@, i)
                &&& final(shared).wakers@ == after_wake(old(shared).wakers@, i)
                &&& final(shared).wakers.wake_count(i) == old(shared).wakers.wake_count(i) + if r {
                    1nat
                } else {
                    0nat
                }
                &&& forall|j: int|
                    0 <= j < I2C_COUNT && j != i ==> final(shared).wakers.wake_count(j) == old(
                        shared,
                    ).wakers.wake_count(j) && final(shared).wakers.holds(j) == old(
                        shared,
                    ).wakers.holds(j)
            }),
    {
        let info = T::peripheral().info();
        shared.finish_interrupt(&info)
    }
}

} // verus!
