//! The pins that SPI1 is wired to.

use vstd::prelude::*;

verus! {

/// The number that stands for a line that is not connected.
pub const NO_PIN: i32 = -1;

/// The number of a pin, or the one that stands for none.
pub open spec fn pin_or_none(pin: Option<i32>) -> i32 {
    match pin {
        Some(number) => number,
        None => NO_PIN,
    }
}

/// The clock line of SPI1.
#[derive(Copy, Clone, Debug, PartialEq, Eq, Structural)]
pub struct Gpio6;

/// The line on which SPI1 sends.
#[derive(Copy, Clone, Debug, PartialEq, Eq, Structural)]
pub struct Gpio7;

/// The line on which SPI1 receives.
#[derive(Copy, Clone, Debug, PartialEq, Eq, Structural)]
pub struct Gpio8;

impl Gpio6 {
    pub fn pin(&self) -> (number: i32)
        ensures
            number == 6,
    {
        6
    }
}

impl Gpio7 {
    pub fn pin(&self) -> (number: i32)
        ensures
            number == 7,
    {
        7
    }
}

impl Gpio8 {
    pub fn pin(&self) -> (number: i32)
        ensures
            number == 8,
    {
        8
    }
}

} // verus!
