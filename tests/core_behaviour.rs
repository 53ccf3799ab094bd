use std::sync::atomic::{AtomicUsize, Ordering};
use std::sync::Arc;
use std::task::{Wake, Waker};

use i2c_core::error::{classify, BusStatus, Error, MasterState, TransferError};
use i2c_core::instance::{Instance, Peripheral, FLEXCOMM15, FLEXCOMM3, I2C_COUNT};
use i2c_core::interrupt::{IntStatus, InterruptHandler, Shared};
use i2c_core::remediation::{
    force_clear_remediation, Remediation, RemediationTable, REMEDIATION_MASTER_STOP,
    REMEDIATION_NONE, REMEDIATION_SLAVE_NAK,
};
use i2c_core::wake::WakeTable;

struct Counter(AtomicUsize);

impl Wake for Counter {
    fn wake(self: Arc<Self>) {
        self.0.fetch_add(1, Ordering::SeqCst);
    }
}

fn counting_waker() -> (Arc<Counter>, Waker) {
    let c = Arc::new(Counter(AtomicUsize::new(0)));
    let w = Waker::from(c.clone());
    (c, w)
}

fn quiet() -> IntStatus {
    IntStatus {
        master_pending: false,
        arbitration_loss: false,
        start_stop_error: false,
        slave_pending: false,
        slave_deselected: false,
    }
}

fn master_pending() -> IntStatus {
    IntStatus { master_pending: true, ..quiet() }
}

fn slave_pending() -> IntStatus {
    IntStatus { slave_pending: true, ..quiet() }
}

#[test]
fn register_then_wake_invokes_once() {
    let (count, w) = counting_waker();
    let mut t = WakeTable::new();
    t.register(4, &w);
    assert!(t.is_armed(4));
    assert!(t.wake(4));
    assert_eq!(count.0.load(Ordering::SeqCst), 1);
    assert!(!t.wake(4));
    assert_eq!(count.0.load(Ordering::SeqCst), 1);
}

#[test]
fn register_replaces_earlier_handle() {
    let (first, w1) = counting_waker();
    let (second, w2) = counting_waker();
    let mut t = WakeTable::new();
    t.register(0, &w1);
    t.register(0, &w2);
    assert!(t.wake(0));
    assert_eq!(first.0.load(Ordering::SeqCst), 0);
    assert_eq!(second.0.load(Ordering::SeqCst), 1);
}

#[test]
fn wake_without_registration_is_noop() {
    let mut t = WakeTable::new();
    assert!(!t.wake(8));
    assert!(!t.is_armed(8));
}

#[test]
fn interrupt_wakes_slot_once() {
    let (count, w) = counting_waker();
    let mut shared = Shared::new();
    let info = Peripheral::Flexcomm2.info();
    assert!(shared.poll_remediation_clear(&info, &w));
    let all = IntStatus {
        master_pending: true,
        arbitration_loss: true,
        start_stop_error: true,
        slave_pending: true,
        slave_deselected: true,
    };
    let r = shared.handle_interrupt(&info, all);
    assert_eq!(r.disable, all);
    assert!(!r.issue_stop);
    assert!(!r.force_nak);
    assert_eq!(count.0.load(Ordering::SeqCst), 0);
    assert!(shared.finish_interrupt(&info));
    assert_eq!(count.0.load(Ordering::SeqCst), 1);
    let _ = shared.handle_interrupt(&info, all);
    assert!(!shared.finish_interrupt(&info));
    assert_eq!(count.0.load(Ordering::SeqCst), 1);
}

#[test]
fn dropped_master_task_gets_stop() {
    let mut shared = Shared::new();
    let info = Peripheral::Flexcomm5.info();
    shared.remediation.request(info.index(), Remediation::MasterStop);
    assert_eq!(shared.remediation.flags(5), REMEDIATION_MASTER_STOP);
    let r = shared.handle_interrupt(&info, master_pending());
    assert!(r.issue_stop);
    assert!(!r.force_nak);
    assert_eq!(shared.remediation.flags(5), REMEDIATION_NONE);
    let again = shared.handle_interrupt(&info, master_pending());
    assert!(!again.issue_stop);
}

#[test]
fn repeated_nak_request_acts_once() {
    let mut shared = Shared::new();
    let info = Peripheral::Flexcomm1.info();
    shared.remediation.request(1, Remediation::SlaveNak);
    shared.remediation.request(1, Remediation::SlaveNak);
    assert_eq!(shared.remediation.flags(1), REMEDIATION_SLAVE_NAK);
    let r = shared.handle_interrupt(&info, slave_pending());
    assert!(r.force_nak);
    assert!(!r.issue_stop);
    let again = shared.handle_interrupt(&info, slave_pending());
    assert!(!again.force_nak);
    assert_eq!(shared.remediation.flags(1), REMEDIATION_NONE);
}

#[test]
fn force_clear_discards_pending_stop() {
    let mut shared = Shared::new();
    let info = Peripheral::Flexcomm0.info();
    shared.remediation.request(0, Remediation::MasterStop);
    force_clear_remediation(&info, &mut shared.remediation);
    assert!(shared.remediation.is_clear(0));
    let r = shared.handle_interrupt(&info, master_pending());
    assert!(!r.issue_stop);
}

#[test]
fn force_clear_when_clear_is_noop() {
    let mut t = RemediationTable::new();
    t.request(3, Remediation::SlaveNak);
    t.force_clear(6);
    for i in 0..I2C_COUNT {
        let expected = if i == 3 { REMEDIATION_SLAVE_NAK } else { REMEDIATION_NONE };
        assert_eq!(t.flags(i), expected);
    }
}

#[test]
fn take_reports_and_clears_one_bit() {
    let mut t = RemediationTable::new();
    t.request(7, Remediation::MasterStop);
    t.request(7, Remediation::SlaveNak);
    assert_eq!(t.flags(7), REMEDIATION_MASTER_STOP | REMEDIATION_SLAVE_NAK);
    assert!(t.take(7, Remediation::SlaveNak));
    assert_eq!(t.flags(7), REMEDIATION_MASTER_STOP);
    assert!(!t.take(7, Remediation::SlaveNak));
    assert!(t.take(7, Remediation::MasterStop));
    assert!(t.is_clear(7));
}

#[test]
fn unrelated_conditions_leave_remediation() {
    let mut shared = Shared::new();
    let info = Peripheral::Flexcomm6.info();
    shared.remediation.request(6, Remediation::MasterStop);
    shared.remediation.request(6, Remediation::SlaveNak);
    let s = IntStatus { arbitration_loss: true, slave_deselected: true, ..quiet() };
    let r = shared.handle_interrupt(&info, s);
    assert!(!r.issue_stop && !r.force_nak);
    assert_eq!(r.disable, s);
    assert_eq!(shared.remediation.flags(6), REMEDIATION_MASTER_STOP | REMEDIATION_SLAVE_NAK);
    let r = shared.handle_interrupt(&info, master_pending());
    assert!(r.issue_stop && !r.force_nak);
    assert_eq!(shared.remediation.flags(6), REMEDIATION_SLAVE_NAK);
}

#[test]
fn await_clear_completes_after_one_run() {
    let (count, w) = counting_waker();
    let mut shared = Shared::new();
    let info = Peripheral::Flexcomm15.info();
    shared.remediation.request(8, Remediation::MasterStop);
    shared.remediation.request(8, Remediation::SlaveNak);
    assert!(!shared.poll_remediation_clear(&info, &w));
    let both = IntStatus { master_pending: true, slave_pending: true, ..quiet() };
    let r = shared.handle_interrupt(&info, both);
    assert!(r.issue_stop && r.force_nak);
    assert!(shared.finish_interrupt(&info));
    assert_eq!(count.0.load(Ordering::SeqCst), 1);
    assert!(shared.poll_remediation_clear(&info, &w));
}

#[test]
fn typed_handler_uses_its_slot() {
    let mut shared = Shared::new();
    shared.remediation.request(3, Remediation::MasterStop);
    shared.remediation.request(8, Remediation::MasterStop);
    let r = InterruptHandler::<FLEXCOMM3>::on_interrupt(&mut shared, master_pending());
    assert!(r.issue_stop);
    assert!(shared.remediation.is_clear(3));
    assert!(!shared.remediation.is_clear(8));
    let r = InterruptHandler::<FLEXCOMM15>::on_interrupt(&mut shared, master_pending());
    assert!(r.issue_stop);
    assert!(shared.remediation.is_clear(8));
    let (count, w) = counting_waker();
    shared.wakers.register(8, &w);
    assert!(!InterruptHandler::<FLEXCOMM3>::wake(&mut shared));
    assert_eq!(count.0.load(Ordering::SeqCst), 0);
    assert!(InterruptHandler::<FLEXCOMM15>::wake(&mut shared));
    assert_eq!(count.0.load(Ordering::SeqCst), 1);
}

#[test]
fn peripheral_slots() {
    assert_eq!(Peripheral::Flexcomm0.index(), 0);
    assert_eq!(Peripheral::Flexcomm7.index(), 7);
    assert_eq!(Peripheral::Flexcomm15.index(), 8);
    assert_eq!(Peripheral::Flexcomm15.number(), 15);
    assert_eq!(FLEXCOMM15::peripheral(), Peripheral::Flexcomm15);
    assert_eq!(FLEXCOMM3::peripheral().info().index(), 3);
}

#[test]
fn transfer_error_converts() {
    assert_eq!(Error::from(TransferError::AddressNack), Error::Transfer(TransferError::AddressNack));
    let e: Error = TransferError::Timeout.into();
    assert_eq!(e, Error::Transfer(TransferError::Timeout));
}

fn status(state: MasterState) -> BusStatus {
    BusStatus {
        timed_out: false,
        arbitration_loss: false,
        start_stop_error: false,
        master_state: state,
        reading: false,
    }
}

#[test]
fn classify_each_variant() {
    let t = |e| Error::Transfer(e);
    let mut s = status(MasterState::Idle);
    assert_eq!(classify(s), t(TransferError::OtherBusError));
    s.timed_out = true;
    assert_eq!(classify(s), t(TransferError::Timeout));
    s.master_state = MasterState::NackData;
    assert_eq!(classify(s), t(TransferError::WriteFail));
    s.reading = true;
    assert_eq!(classify(s), t(TransferError::ReadFail));
    s.master_state = MasterState::NackAddress;
    assert_eq!(classify(s), t(TransferError::AddressNack));
    s.start_stop_error = true;
    assert_eq!(classify(s), t(TransferError::StartStopError));
    s.arbitration_loss = true;
    assert_eq!(classify(s), t(TransferError::ArbitrationLoss));
}

#[test]
fn classify_every_combination() {
    let states = [
        MasterState::Idle,
        MasterState::ReceiveReady,
        MasterState::TransmitReady,
        MasterState::NackAddress,
        MasterState::NackData,
    ];
    for bits in 0u8..16 {
        for st in states {
            let s = BusStatus {
                timed_out: bits & 1 != 0,
                arbitration_loss: bits & 2 != 0,
                start_stop_error: bits & 4 != 0,
                master_state: st,
                reading: bits & 8 != 0,
            };
            assert!(matches!(classify(s), Error::Transfer(_)));
        }
    }
}
