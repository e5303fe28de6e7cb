//! The driver of one device on a bus of its own.

use vstd::prelude::*;

use crate::blocking::{blocking_start, BlockingCall};
use crate::bus::{SpiBusMasterDriver, MAX_TRANSFER_SIZE};
use crate::config::Config;
use crate::exec::{exec_start, ExecCall, Operation};
use crate::gpio::{Gpio6, Gpio7, Gpio8};
use crate::host::{Spi, SpiAnyPins, SPI1};
use crate::setup::{setup_plan, Pins, Setup, SetupStage};
use crate::sys::{DeviceHandle, Sdk, SpiHost, TRANS_LEN_LIMIT};
use crate::teardown::{Teardown, TeardownStage};
use crate::transaction::{BusTransaction, Stage};
use crate::transmission::{Lanes, Link};
use crate::wire::{closing, cut, in_step, wire};
use crate::wire_laws::{law_blocking_transfer_on_wire, law_blocking_write_on_wire};
use crate::write_iter::{write_iter_start, WriteIterCall};

verus! {

/// What a driver knows of its device.
pub struct DriverState {
    pub link: Link,
    /// The most bytes that one transmission has.
    pub max_transfer_size: int,
    /// The most bytes that one transmission has without DMA.
    pub trans_len: int,
}

/// Master SPI abstraction.
#[derive(Debug)]
pub struct SpiMasterDriver<SPI: Spi> {
    _spi: SPI,
    link: Link,
    max_transfer_size: usize,
    trans_len: usize,
}

impl<SPI: Spi> View for SpiMasterDriver<SPI> {
    type V = DriverState;

    closed spec fn view(&self) -> DriverState {
        DriverState {
            link: self.link,
            max_transfer_size: self.max_transfer_size as int,
            trans_len: self.trans_len as int,
        }
    }
}

impl SpiMasterDriver<SPI1> {
    /// Sets up a driver for SPI1, which can only use fixed pins for SCLK, SDO and SDI, as they
    /// are shared with SPI0.
    pub fn new_spi1(
        spi: SPI1,
        sclk: Gpio6,
        sdo: Gpio7,
        sdi: Option<Gpio8>,
        cs: Option<i32>,
        config: &Config,
        sdk: &Sdk,
    ) -> (setup: Setup<SPI1>)
        requires
            config.dma.valid(sdk.spec_trans_len()),
        ensures
            setup.wf(),
            setup.plan() == setup_plan(
                SpiHost::Spi1,
                Pins {
                    sclk: 6,
                    sdo: 7,
                    sdi: if sdi is Some {
                        Some(8i32)
                    } else {
                        None
                    },
                    cs,
                },
                *config,
                *sdk,
            ),
            setup.stage() == SetupStage::Start(spi),
    {
        let sdi: Option<i32> = match sdi {
            Some(pin) => Some(pin.pin()),
            None => None,
        };
        SpiMasterDriver::new_internal(spi, sclk.pin(), sdo.pin(), sdi, cs, config, sdk)
    }
}

impl<SPI: SpiAnyPins> SpiMasterDriver<SPI> {
    /// Sets up a driver for any other controller.
    pub fn new(
        spi: SPI,
        sclk: i32,
        sdo: i32,
        sdi: Option<i32>,
        cs: Option<i32>,
        config: &Config,
        sdk: &Sdk,
    ) -> (setup: Setup<SPI>)
        requires
            config.dma.valid(sdk.spec_trans_len()),
        ensures
            setup.wf(),
            setup.plan() == setup_plan(
                SPI::host(),
                Pins { sclk, sdo, sdi, cs },
                *config,
                *sdk,
            ),
            setup.stage() == SetupStage::Start(spi),
            setup.plan().host != SpiHost::Spi1,
    {
        proof {
            SPI::any_pins();
        }
        SpiMasterDriver::new_internal(spi, sclk, sdo, sdi, cs, config, sdk)
    }
}

impl<SPI: Spi> SpiMasterDriver<SPI> {
    pub open spec fn wf(&self) -> bool {
        &&& 0 <= self@.max_transfer_size <= MAX_TRANSFER_SIZE
        &&& 0 <= self@.trans_len <= TRANS_LEN_LIMIT
    }

    /// Sets up a driver for any controller.
    fn new_internal(
        spi: SPI,
        sclk: i32,
        sdo: i32,
        sdi: Option<i32>,
        cs: Option<i32>,
        config: &Config,
        sdk: &Sdk,
    ) -> (setup: Setup<SPI>)
        requires
            config.dma.valid(sdk.spec_trans_len()),
        ensures
            setup.wf(),
            setup.plan() == setup_plan(
                SPI::host(),
                Pins { sclk, sdo, sdi, cs },
                *config,
                *sdk,
            ),
            setup.stage() == SetupStage::Start(spi),
    {
        Setup::new(spi, Pins { sclk, sdo, sdi, cs }, config, sdk)
    }

    pub(crate) fn assemble(
        spi: SPI,
        link: Link,
        max_transfer_size: usize,
        trans_len: usize,
    ) -> (driver: SpiMasterDriver<SPI>)
        requires
            max_transfer_size <= MAX_TRANSFER_SIZE,
            trans_len <= TRANS_LEN_LIMIT,
        ensures
            driver.wf(),
            driver@ == (DriverState {
                link,
                max_transfer_size: max_transfer_size as int,
                trans_len: trans_len as int,
            }),
    {
        SpiMasterDriver { _spi: spi, link, max_transfer_size, trans_len }
    }

    /// The handle of the device.
    pub fn device_handle(&mut self) -> (handle: DeviceHandle)
        ensures
            *final(self) == *old(self),
            handle == old(self)@.link.handle,
    {
        self.link.handle
    }

    /// The most bytes that one transmission has.
    pub fn max_transfer_size(&self) -> (size: usize)
        ensures
            size == self@.max_transfer_size,
    {
        self.max_transfer_size
    }

    /// Begins a transaction, whose body returns a `Result<R, E>`.
    pub fn transaction<R, E>(&mut self) -> (transaction: BusTransaction<R, E>)
        requires
            old(self).wf(),
        ensures
            *final(self) == *old(self),
            transaction.stage() == Stage::<R, E>::Start,
            transaction.bus().wf(),
            transaction.bus().link() == old(self)@.link,
            transaction.bus().trans_len() == old(self)@.max_transfer_size,
    {
        BusTransaction::new(SpiBusMasterDriver::new(self.link, self.max_transfer_size))
    }

    /// Begins to send `words` bytes and to receive as many into the same buffer.
    pub fn transfer(&mut self, words: usize) -> (call: BlockingCall)
        requires
            old(self).wf(),
            old(self)@.max_transfer_size > 0,
        ensures
            *final(self) == *old(self),
            call.wf(),
            call.device() == old(self)@.link.handle,
            call@ == blocking_start(old(self)@, Lanes::Both, words as int),
            wire(call@.pending) == in_step(words as int, words as int),
            cut(call@.pending, true, true, 0, words as int, old(self)@.max_transfer_size),
            closing(call@.pending, old(self)@.link),
    {
        proof {
            law_blocking_transfer_on_wire(self@, words as int);
        }
        BlockingCall::new(self.link, self.max_transfer_size, Lanes::Both, words)
    }

    /// Begins to send `words` bytes.
    pub fn write(&mut self, words: usize) -> (call: BlockingCall)
        requires
            old(self).wf(),
            old(self)@.max_transfer_size > 0,
        ensures
            *final(self) == *old(self),
            call.wf(),
            call.device() == old(self)@.link.handle,
            call@ == blocking_start(old(self)@, Lanes::Write, words as int),
            wire(call@.pending) == in_step(0, words as int),
            cut(call@.pending, true, false, 0, words as int, old(self)@.max_transfer_size),
            closing(call@.pending, old(self)@.link),
    {
        proof {
            law_blocking_write_on_wire(self@, words as int);
        }
        BlockingCall::new(self.link, self.max_transfer_size, Lanes::Write, words)
    }

    /// Begins a transaction that performs these operations, one after the other.
    pub fn exec(&mut self, operations: Vec<Operation>) -> (call: ExecCall)
        requires
            old(self).wf(),
        ensures
            *final(self) == *old(self),
            call.wf(),
            call.bus().wf(),
            call.bus().link() == old(self)@.link,
            call.bus().trans_len() == old(self)@.max_transfer_size,
            call.operations() == operations@,
            call@ == exec_start(
                old(self)@.link,
                old(self)@.max_transfer_size,
                operations@,
            ),
    {
        ExecCall::new(self.transaction(), operations)
    }

    /// Begins a transaction that writes bytes as they are pulled from a source.
    pub fn write_iter(&mut self) -> (call: WriteIterCall)
        requires
            old(self).wf(),
        ensures
            *final(self) == *old(self),
            call.wf(),
            call.bus().wf(),
            call.bus().link() == old(self)@.link,
            call.bus().trans_len() == old(self)@.max_transfer_size,
            call.capacity() == old(self)@.trans_len,
            0 <= call.capacity() <= TRANS_LEN_LIMIT,
            call@ == write_iter_start(),
    {
        WriteIterCall::new(self.transaction(), self.trans_len)
    }

    /// Begins to give the driver up.
    pub fn drop(&mut self) -> (teardown: Teardown)
        ensures
            *final(self) == *old(self),
            teardown.device() == old(self)@.link.handle,
            teardown.host() == SPI::host(),
            teardown.stage() == TeardownStage::Start,
    {
        Teardown::new(self.link.handle, SPI::device())
    }
}

} // verus!
