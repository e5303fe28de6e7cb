//! Clock modes as version 0.2 of the hardware abstraction layer writes them.

use vstd::prelude::*;

verus! {

/// The level of the clock line while nothing is clocked.
#[derive(Copy, Clone, Debug, PartialEq, Eq, Structural)]
pub enum Polarity {
    IdleLow,
    IdleHigh,
}

/// The clock transition on which a bit is captured.
#[derive(Copy, Clone, Debug, PartialEq, Eq, Structural)]
pub enum Phase {
    CaptureOnFirstTransition,
    CaptureOnSecondTransition,
}

/// A clock mode.
#[derive(Copy, Clone, Debug, PartialEq, Eq, Structural)]
pub struct Mode {
    pub polarity: Polarity,
    pub phase: Phase,
}

} // verus!
