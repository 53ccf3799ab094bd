use vstd::prelude::*;

verus! {

/// Specific information regarding transfer errors.
#[derive(Debug, Copy, Clone, PartialEq, Eq, Structural)]
pub enum TransferError {
    /// The wait for the bus was abandoned after a deadline.
    Timeout,
    /// Reading from the bus failed.
    ReadFail,
    /// Writing to the bus failed.
    WriteFail,
    /// The address was not acknowledged.
    AddressNack,
    /// Bus level arbitration loss.
    ArbitrationLoss,
    /// Address plus start/stop sequencing error.
    StartStopError,
    /// State mismatch or another unexpected register state.
    OtherBusError,
}

/// Error information type.
#[derive(Debug, Copy, Clone, PartialEq, Eq, Structural)]
pub enum Error {
    /// The configuration requested is not supported.
    UnsupportedConfiguration,
    /// Transaction failure.
    Transfer(TransferError),
}

impl From<TransferError> for Error {
    fn from(value: TransferError) -> (r: Error)
        ensures
            r == Error::Transfer(value),
    {
        Error::Transfer(value)
    }
}

impl vstd::std_specs::convert::FromSpecImpl<TransferError> for Error {
    open spec fn obeys_from_spec() -> bool {
        true
    }

    open spec fn from_spec(v: TransferError) -> Error {
        Error::Transfer(v)
    }
}

/// The controller's master state field, as the resumed task reads it.
#[derive(Debug, Copy, Clone, PartialEq, Eq, Structural)]
pub enum MasterState {
    /// The controller is idle.
    Idle,
    /// Received data is available.
    ReceiveReady,
    /// The controller is ready to transmit data.
    TransmitReady,
    /// The slave did not acknowledge the address.
    NackAddress,
    /// The slave did not acknowledge transmitted data.
    NackData,
}

/// Hardware status flags observed by a task after it was woken.
#[derive(Debug, Copy, Clone, PartialEq, Eq, Structural)]
pub struct BusStatus {
    /// The wait was abandoned at a deadline.
    pub timed_out: bool,
    /// The arbitration-loss flag was set.
    pub arbitration_loss: bool,
    /// The start/stop sequencing error flag was set.
    pub start_stop_error: bool,
    /// The master state field.
    pub master_state: MasterState,
    /// The transfer was reading from the bus (else writing).
    pub reading: bool,
}

/// The error that an observed status stands for. Bus faults flagged by the
/// hardware come first, then a negative acknowledgement, then an expired
/// deadline; any other state is a mismatch.
pub open spec fn classification(s: BusStatus) -> Error {
    if s.arbitration_loss {
        Error::Transfer(TransferError::ArbitrationLoss)
    } else if s.start_stop_error {
        Error::Transfer(TransferError::StartStopError)
    } else if s.master_state == MasterState::NackAddress {
        Error::Transfer(TransferError::AddressNack)
    } else if s.master_state == MasterState::NackData {
        if s.reading {
            Error::Transfer(TransferError::ReadFail)
        } else {
            Error::Transfer(TransferError::WriteFail)
        }
    } else if s.timed_out {
        Error::Transfer(TransferError::Timeout)
    } else {
        Error::Transfer(TransferError::OtherBusError)
    }
}

/// Classifies the status flags a woken task observed into one error.
pub fn classify(s: BusStatus) -> (r: Error)
    ensures
        r == classification(s),
{
    if s.arbitration_loss {
        TransferError::ArbitrationLoss.into()
    } else if s.start_stop_error {
        TransferError::StartStopError.into()
    } else if s.master_state == MasterState::NackAddress {
        TransferError::AddressNack.into()
    } else if s.master_state == MasterState::NackData {
        if s.reading {
            TransferError::ReadFail.into()
        } else {
            TransferError::WriteFail.into()
        }
    } else if s.timed_out {
        TransferError::Timeout.into()
    } else {
        TransferError::OtherBusError.into()
    }
}

/// Every combination of status flags is classified, as exactly one transfer
/// error: never as a configuration error, and never as two variants.
pub proof fn lemma_classification_total(s: BusStatus)
    ensures
        exists|e: TransferError| classification(s) == Error::Transfer(e),
        forall|e1: TransferError, e2: TransferError|
            classification(s) == Error::Transfer(e1) && classification(s) == Error::Transfer(e2)
                ==> e1 == e2,
        classification(s) != Error::UnsupportedConfiguration,
{
    let e = match classification(s) {
        Error::Transfer(e) => e,
        Error::UnsupportedConfiguration => TransferError::OtherBusError,
    };
    assert(classification(s) == Error::Transfer(e));
}

} // verus!
