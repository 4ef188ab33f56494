//! What a transport reports of a failed write, and how a general call
//! classifies it.
use vstd::prelude::*;

verus! {

/// Which part of a write was not acknowledged.
#[derive(Clone, Copy, Debug, PartialEq, Eq)]
pub enum AckSource {
    /// The address byte.
    Address,
    /// A data byte.
    Data,
    /// Either one, the transport cannot tell which.
    Unknown,
}

/// The kind of a transport fault, as the embedded-hal I2C error kinds name it.
#[derive(Clone, Copy, Debug, PartialEq, Eq)]
pub enum FaultKind {
    /// A START or STOP condition at the wrong place.
    Bus,
    /// Arbitration was lost to another controller.
    ArbitrationLoss,
    /// A byte was not acknowledged.
    NoAcknowledge(AckSource),
    /// The receive buffer was overrun.
    Overrun,
    /// Any other fault.
    Other,
}

/// I2C general call error.
#[derive(Clone, Copy, Debug, PartialEq, Eq)]
pub enum Error<E> {
    /// No device on the bus acknowledged the general call.
    NoAckCall,
    /// At least one device on the bus acknowledged the general call, but not the specific command.
    NoAckCmd,
    /// Other I2C error was encountered.
    I2C(E),
}

/// The error that a general call reports for a transport fault of kind `kind`.
pub open spec fn classify_spec<E>(kind: FaultKind, fault: E) -> Error<E> {
    match kind {
        FaultKind::NoAcknowledge(AckSource::Address) => Error::NoAckCall,
        FaultKind::NoAcknowledge(AckSource::Data) => Error::NoAckCmd,
        _ => Error::I2C(fault),
    }
}

/// What a general call returns for the outcome of its write: success stays
/// success, a fault is classified by its kind.
pub open spec fn result_of<E>(reply: Result<(), (E, FaultKind)>) -> Result<(), Error<E>> {
    match reply {
        Ok(()) => Ok(()),
        Err((fault, kind)) => Err(classify_spec(kind, fault)),
    }
}

/// Classifies a transport fault of kind `kind`: a missing acknowledgement of
/// the address is [`Error::NoAckCall`], of a data byte [`Error::NoAckCmd`];
/// every other fault is handed back unchanged in [`Error::I2C`].
pub fn classify<E>(fault: E, kind: FaultKind) -> (r: Error<E>)
    ensures
        r == classify_spec(kind, fault),
{
    match kind {
        FaultKind::NoAcknowledge(AckSource::Address) => Error::NoAckCall,
        FaultKind::NoAcknowledge(AckSource::Data) => Error::NoAckCmd,
        _ => Error::I2C(fault),
    }
}

/// What a general call returns for the transport's reply to its write:
/// success stays success, a fault is classified by its kind.
pub fn res_map<E>(reply: Result<(), (E, FaultKind)>) -> (r: Result<(), Error<E>>)
    ensures
        r == result_of(reply),
{
    match reply {
        Ok(()) => Ok(()),
        Err((fault, kind)) => Err(classify(fault, kind)),
    }
}

} // verus!
