//! What the operations of the driver have in common.

use vstd::prelude::*;

use crate::error::{other_error, ErrorKind, SpiError};
use crate::transaction::Failure;

verus! {

/// What came of the last action of a call.
#[derive(Copy, Clone, Debug, PartialEq, Eq, Structural)]
pub enum CallReply {
    /// There was none: the call begins.
    Start,
    /// The status of the attempt to acquire the bus.
    Acquired(i32),
    /// The status of the transmission.
    Transmitted(i32),
    /// The bus has been released.
    Released,
}

/// What the result of a transaction is for the callers of an SPI operation.
pub open spec fn spi_result(result: Result<(), Failure<SpiError>>) -> Result<(), SpiError> {
    match result {
        Ok(_) => Ok(()),
        Err(Failure::Body(e)) => Err(e),
        Err(Failure::Driver(e)) => Err(other_error(e)),
    }
}

/// Turns the result of a transaction into that of an SPI operation.
pub(crate) fn into_spi_result(result: Result<(), Failure<SpiError>>) -> (converted: Result<
    (),
    SpiError,
>)
    ensures
        converted == spi_result(result),
        converted is Ok <==> result is Ok,
        result matches Err(Failure::Body(e)) ==> converted->Err_0 == e,
        result matches Err(Failure::Driver(e)) ==> converted->Err_0.cause == e,
{
    match result {
        Ok(_) => Ok(()),
        Err(failure) => Err(failure.into_error()),
    }
}

/// An SPI operation succeeds if and only if its transaction does; an error of the body stays as it
/// is, and a failed call of the driver becomes the cause of an error.
pub proof fn law_spi_result(result: Result<(), Failure<SpiError>>)
    ensures
        spi_result(result) is Ok <==> result is Ok,
        result matches Err(Failure::Body(e)) ==> spi_result(result)->Err_0 == e,
        result matches Err(Failure::Driver(e)) ==> spi_result(result)->Err_0 == (SpiError {
            kind: ErrorKind::Other,
            cause: e,
        }),
{
}

} // verus!
