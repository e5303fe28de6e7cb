//! The SPI controllers of the chip.
//!
//! SPI0 is reserved for accessing flash and SRAM. SPI1 shares its pins with SPI0. SPI2 and SPI3
//! can be used freely.

use vstd::prelude::*;

use crate::sys::SpiHost;

verus! {

/// An SPI controller.
pub trait Spi: Send {
    /// The controller that this type stands for.
    spec fn host() -> SpiHost;

    /// The controller that this type stands for.
    fn device() -> (host: SpiHost)
        ensures
            host == Self::host(),
    ;
}

/// A controller that can be wired to any pins. SPI1 is none: its pins are fixed.
pub trait SpiAnyPins: Spi {
    /// Such a controller is not SPI1.
    proof fn any_pins()
        ensures
            Self::host() != SpiHost::Spi1,
    ;
}

/// SPI1, which shares its pins with SPI0.
#[derive(Debug, PartialEq, Eq, Structural)]
pub struct SPI1;

#[derive(Debug, PartialEq, Eq, Structural)]
pub struct SPI2;

#[derive(Debug, PartialEq, Eq, Structural)]
pub struct SPI3;

impl Spi for SPI1 {
    open spec fn host() -> SpiHost {
        SpiHost::Spi1
    }

    fn device() -> (host: SpiHost)
        ensures
            host == SpiHost::Spi1,
    {
        SpiHost::Spi1
    }
}

impl Spi for SPI2 {
    open spec fn host() -> SpiHost {
        SpiHost::Spi2
    }

    fn device() -> (host: SpiHost)
        ensures
            host == SpiHost::Spi2,
    {
        SpiHost::Spi2
    }
}

impl Spi for SPI3 {
    open spec fn host() -> SpiHost {
        SpiHost::Spi3
    }

    fn device() -> (host: SpiHost)
        ensures
            host == SpiHost::Spi3,
    {
        SpiHost::Spi3
    }
}

impl SpiAnyPins for SPI2 {
    proof fn any_pins() {
    }
}

impl SpiAnyPins for SPI3 {
    proof fn any_pins() {
    }
}

/// Each type stands for the controller that it is named after.
pub proof fn law_hosts()
    ensures
        SPI1::host() == SpiHost::Spi1,
        SPI2::host() == SpiHost::Spi2,
        SPI3::host() == SpiHost::Spi3,
{
}

} // verus!
