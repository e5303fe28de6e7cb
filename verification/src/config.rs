//! SPI configuration.

use vstd::prelude::*;

use crate::dma::Dma;
use crate::v02;

verus! {

/// A frequency.
#[derive(Copy, Clone, Debug, PartialEq, Eq, Structural)]
pub struct Hertz(pub u32);

/// The level of the clock line while nothing is clocked.
#[derive(Copy, Clone, Debug, PartialEq, Eq, Structural)]
pub enum Polarity {
    IdleLow,
    IdleHigh,
}

/// The clock transition on which a bit is captured.
#[derive(Copy, Clone, Debug, PartialEq, Eq, Structural)]
pub enum Phase {
    CaptureOnFirstTransition,
    CaptureOnSecondTransition,
}

/// A clock mode.
#[derive(Copy, Clone, Debug, PartialEq, Eq, Structural)]
pub struct Mode {
    pub polarity: Polarity,
    pub phase: Phase,
}

/// A value of version 0.2 of the hardware abstraction layer.
#[derive(Debug, PartialEq, Eq)]
pub struct V02Type<T>(pub T);

/// The polarity of the same name.
pub open spec fn polarity_from_v02(polarity: v02::Polarity) -> Polarity {
    match polarity {
        v02::Polarity::IdleHigh => Polarity::IdleHigh,
        v02::Polarity::IdleLow => Polarity::IdleLow,
    }
}

/// The phase of the same name.
pub open spec fn phase_from_v02(phase: v02::Phase) -> Phase {
    match phase {
        v02::Phase::CaptureOnFirstTransition => Phase::CaptureOnFirstTransition,
        v02::Phase::CaptureOnSecondTransition => Phase::CaptureOnSecondTransition,
    }
}

/// The mode with the same polarity and phase.
pub open spec fn mode_from_v02(mode: v02::Mode) -> Mode {
    Mode { polarity: polarity_from_v02(mode.polarity), phase: phase_from_v02(mode.phase) }
}

impl From<V02Type<v02::Polarity>> for Polarity {
    fn from(polarity: V02Type<v02::Polarity>) -> (converted: Polarity)
        ensures
            converted == Polarity::IdleHigh <==> polarity.0 == v02::Polarity::IdleHigh,
    {
        match polarity.0 {
            v02::Polarity::IdleHigh => Polarity::IdleHigh,
            v02::Polarity::IdleLow => Polarity::IdleLow,
        }
    }
}

impl vstd::std_specs::convert::FromSpecImpl<V02Type<v02::Polarity>> for Polarity {
    open spec fn obeys_from_spec() -> bool {
        true
    }

    open spec fn from_spec(polarity: V02Type<v02::Polarity>) -> Polarity {
        polarity_from_v02(polarity.0)
    }
}

impl From<V02Type<v02::Phase>> for Phase {
    fn from(phase: V02Type<v02::Phase>) -> (converted: Phase)
        ensures
            converted == Phase::CaptureOnSecondTransition <==> phase.0
                == v02::Phase::CaptureOnSecondTransition,
    {
        match phase.0 {
            v02::Phase::CaptureOnFirstTransition => Phase::CaptureOnFirstTransition,
            v02::Phase::CaptureOnSecondTransition => Phase::CaptureOnSecondTransition,
        }
    }
}

impl vstd::std_specs::convert::FromSpecImpl<V02Type<v02::Phase>> for Phase {
    open spec fn obeys_from_spec() -> bool {
        true
    }

    open spec fn from_spec(phase: V02Type<v02::Phase>) -> Phase {
        phase_from_v02(phase.0)
    }
}

impl From<V02Type<v02::Mode>> for Mode {
    fn from(mode: V02Type<v02::Mode>) -> (converted: Mode)
        ensures
            converted.polarity == Polarity::IdleHigh <==> mode.0.polarity
                == v02::Polarity::IdleHigh,
            converted.phase == Phase::CaptureOnSecondTransition <==> mode.0.phase
                == v02::Phase::CaptureOnSecondTransition,
    {
        Mode {
            polarity: Polarity::from(V02Type(mode.0.polarity)),
            phase: Phase::from(V02Type(mode.0.phase)),
        }
    }
}

impl vstd::std_specs::convert::FromSpecImpl<V02Type<v02::Mode>> for Mode {
    open spec fn obeys_from_spec() -> bool {
        true
    }

    open spec fn from_spec(mode: V02Type<v02::Mode>) -> Mode {
        mode_from_v02(mode.0)
    }
}

/// A mode of version 0.2 keeps its polarity and its phase.
pub proof fn law_v02_mode_kept(mode: v02::Mode)
    ensures
        mode_from_v02(mode).polarity == Polarity::IdleHigh <==> mode.polarity
            == v02::Polarity::IdleHigh,
        mode_from_v02(mode).phase == Phase::CaptureOnSecondTransition <==> mode.phase
            == v02::Phase::CaptureOnSecondTransition,
        polarity_from_v02(mode.polarity) == mode_from_v02(mode).polarity,
        phase_from_v02(mode.phase) == mode_from_v02(mode).phase,
{
}

/// Modes of version 0.2 that differ stay different.
pub proof fn law_v02_modes_distinct(a: v02::Mode, b: v02::Mode)
    requires
        a != b,
    ensures
        mode_from_v02(a) != mode_from_v02(b),
{
}

/// SPI configuration.
#[derive(Copy, Clone, Debug, PartialEq, Eq, Structural)]
pub struct Config {
    pub baudrate: Hertz,
    pub data_mode: Mode,
    /// Makes the device write only: it is added without dummy bits, which allows for a bus
    /// frequency of 80 MHz.
    pub write_only: bool,
    pub dma: Dma,
}

/// The name that the configuration goes by at the driver.
pub type SpiMasterConfig = Config;

impl Config {
    /// 1 MHz, mode 0, both directions, without DMA.
    pub open spec fn spec_default() -> Config {
        Config {
            baudrate: Hertz(1_000_000),
            data_mode: Mode {
                polarity: Polarity::IdleLow,
                phase: Phase::CaptureOnFirstTransition,
            },
            write_only: false,
            dma: Dma::Disabled,
        }
    }

    pub fn new() -> (config: Config)
        ensures
            config == Config::spec_default(),
            config.baudrate.0 == 1_000_000,
            config.data_mode.polarity == Polarity::IdleLow,
            config.data_mode.phase == Phase::CaptureOnFirstTransition,
            !config.write_only,
            config.dma == Dma::Disabled,
    {
        Config::default()
    }

    #[must_use]
    pub fn baudrate(self, baudrate: Hertz) -> (config: Config)
        ensures
            config == (Config { baudrate, ..self }),
    {
        Config { baudrate, ..self }
    }

    #[must_use]
    pub fn data_mode(self, data_mode: Mode) -> (config: Config)
        ensures
            config == (Config { data_mode, ..self }),
    {
        Config { data_mode, ..self }
    }

    pub fn write_only(self, write_only: bool) -> (config: Config)
        ensures
            config == (Config { write_only, ..self }),
    {
        Config { write_only, ..self }
    }

    pub fn dma(self, dma: Dma) -> (config: Config)
        ensures
            config == (Config { dma, ..self }),
    {
        Config { dma, ..self }
    }
}

impl Default for Config {
    fn default() -> (config: Config)
        ensures
            config == Config::spec_default(),
            config.baudrate.0 == 1_000_000,
            config.data_mode.polarity == Polarity::IdleLow,
            config.data_mode.phase == Phase::CaptureOnFirstTransition,
            !config.write_only,
            config.dma == Dma::Disabled,
    {
        Config {
            baudrate: Hertz(1_000_000),
            data_mode: Mode {
                polarity: Polarity::IdleLow,
                phase: Phase::CaptureOnFirstTransition,
            },
            write_only: false,
            dma: Dma::Disabled,
        }
    }
}

} // verus!
