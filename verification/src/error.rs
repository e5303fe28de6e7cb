//! The error type of the driver's blocking operations.

use vstd::prelude::*;

use crate::sys::EspError;

verus! {

/// What went wrong on the bus, in the terms that all SPI drivers share.
#[derive(Copy, Clone, Debug, PartialEq, Eq, Hash, Structural)]
#[non_exhaustive]
pub enum ErrorKind {
    /// The receive buffer was overrun.
    Overrun,
    /// More than one device drives the chip select line.
    ModeFault,
    /// The received data does not fit the configuration.
    FrameFormat,
    /// The chip select line could not be switched.
    ChipSelectFault,
    /// Something else; the cause tells.
    Other,
}

/// A failed SPI operation.
#[derive(Copy, Clone, Debug, PartialEq, Eq, Hash, Structural)]
pub struct SpiError {
    pub kind: ErrorKind,
    pub cause: EspError,
}

/// What a failed ESP-IDF call is for the callers of an SPI operation.
pub open spec fn other_error(cause: EspError) -> SpiError {
    SpiError { kind: ErrorKind::Other, cause }
}

impl SpiError {
    /// An error that ESP-IDF says nothing more of than its code.
    pub fn other(cause: EspError) -> (error: SpiError)
        ensures
            error == other_error(cause),
            error.kind == ErrorKind::Other,
            error.cause == cause,
    {
        SpiError { kind: ErrorKind::Other, cause }
    }

    pub fn kind(&self) -> (kind: ErrorKind)
        ensures
            kind == self.kind,
    {
        self.kind
    }

    pub fn cause(&self) -> (cause: EspError)
        ensures
            cause == self.cause,
    {
        self.cause
    }
}

impl From<EspError> for SpiError {
    fn from(cause: EspError) -> (error: SpiError)
        ensures
            error.kind == ErrorKind::Other,
            error.cause == cause,
    {
        SpiError { kind: ErrorKind::Other, cause }
    }
}

impl vstd::std_specs::convert::FromSpecImpl<EspError> for SpiError {
    open spec fn obeys_from_spec() -> bool {
        true
    }

    open spec fn from_spec(cause: EspError) -> SpiError {
        other_error(cause)
    }
}

/// Wraps a failed ESP-IDF call.
pub fn to_spi_err(err: EspError) -> (error: SpiError)
    ensures
        error == other_error(err),
        error.kind == ErrorKind::Other,
        error.cause == err,
{
    SpiError::other(err)
}

/// An SPI error keeps the failed call as its cause, and says nothing more of it.
pub proof fn law_error_keeps_cause(cause: EspError)
    ensures
        other_error(cause).cause == cause,
        other_error(cause).kind == ErrorKind::Other,
{
}

} // verus!
