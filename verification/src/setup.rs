//! Setting up a driver: the bus is initialized, then the device is added to it.

use vstd::prelude::*;

use crate::bus::MAX_TRANSFER_SIZE;
use crate::config::{Config, Mode, Phase, Polarity};
use crate::dma::{dma_channel, Dma};
use crate::gpio::{pin_or_none, NO_PIN};
use crate::host::Spi;
use crate::master::{DriverState, SpiMasterDriver};
use crate::sys::{esp, esp_result, DeviceHandle, EspError, Sdk, SpiHost, TRANS_LEN_LIMIT};
use crate::transmission::Link;

verus! {

/// The bus configuration that ESP-IDF is handed. What it does not name is zero.
#[derive(Copy, Clone, Debug, PartialEq, Eq, Structural)]
pub struct BusConfig {
    pub flags: u32,
    pub sclk_io_num: i32,
    pub mosi_io_num: i32,
    pub miso_io_num: i32,
    pub quadwp_io_num: i32,
    pub quadhd_io_num: i32,
    pub data4_io_num: i32,
    pub data5_io_num: i32,
    pub data6_io_num: i32,
    pub data7_io_num: i32,
    pub max_transfer_sz: i32,
}

/// The device configuration that ESP-IDF is handed. What it does not name is zero.
#[derive(Copy, Clone, Debug, PartialEq, Eq, Structural)]
pub struct DeviceConfig {
    pub spics_io_num: i32,
    pub clock_speed_hz: i32,
    pub mode: u8,
    pub queue_size: i32,
    pub flags: u32,
}

/// The number of transactions that ESP-IDF may queue for a device.
pub const QUEUE_SIZE: i32 = 64;

/// The lines of a bus and of the device on it, by pin number.
#[derive(Copy, Clone, Debug, PartialEq, Eq, Structural)]
pub struct Pins {
    pub sclk: i32,
    pub sdo: i32,
    pub sdi: Option<i32>,
    pub cs: Option<i32>,
}

/// All that a driver is set up with.
#[derive(Copy, Clone, Debug, PartialEq, Eq, Structural)]
pub struct SetupPlan {
    pub host: SpiHost,
    pub bus_config: BusConfig,
    pub dma_channel: u32,
    pub device_config: DeviceConfig,
    /// The most bytes that one transmission has.
    pub max_transfer_size: usize,
    /// The most bytes that one transmission has without DMA.
    pub trans_len: usize,
    pub cs_keep_active: Option<u32>,
}

/// The number of a clock mode: the polarity counts 2, the phase 1.
pub open spec fn mode_number(mode: Mode) -> int {
    (if mode.polarity == Polarity::IdleHigh {
        2int
    } else {
        0
    }) + (if mode.phase == Phase::CaptureOnSecondTransition {
        1int
    } else {
        0
    })
}

/// A 32-bit number read as a signed one.
pub open spec fn signed(x: u32) -> int {
    if x <= i32::MAX {
        x as int
    } else {
        x - 0x1_0000_0000
    }
}

/// The bus configuration for these pins.
pub open spec fn bus_config(pins: Pins, config: Config, sdk: Sdk) -> BusConfig {
    BusConfig {
        flags: sdk.spicommon_busflag_master,
        sclk_io_num: pins.sclk,
        mosi_io_num: pins.sdo,
        miso_io_num: pin_or_none(pins.sdi),
        quadwp_io_num: NO_PIN,
        quadhd_io_num: NO_PIN,
        data4_io_num: NO_PIN,
        data5_io_num: NO_PIN,
        data6_io_num: NO_PIN,
        data7_io_num: NO_PIN,
        max_transfer_sz: config.dma.transfer_size(sdk.spec_trans_len()) as i32,
    }
}

/// The device configuration for these pins.
pub open spec fn device_config(pins: Pins, config: Config, sdk: Sdk) -> DeviceConfig {
    DeviceConfig {
        spics_io_num: pin_or_none(pins.cs),
        clock_speed_hz: signed(config.baudrate.0) as i32,
        mode: mode_number(config.data_mode) as u8,
        queue_size: QUEUE_SIZE,
        flags: if config.write_only {
            sdk.spi_device_no_dummy
        } else {
            0
        },
    }
}

/// All that a driver for `host` is set up with.
pub open spec fn setup_plan(host: SpiHost, pins: Pins, config: Config, sdk: Sdk) -> SetupPlan {
    SetupPlan {
        host,
        bus_config: bus_config(pins, config, sdk),
        dma_channel: dma_channel(config.dma),
        device_config: device_config(pins, config, sdk),
        max_transfer_size: config.dma.transfer_size(sdk.spec_trans_len()) as usize,
        trans_len: sdk.spec_trans_len() as usize,
        cs_keep_active: sdk.spi_trans_cs_keep_active,
    }
}

/// The state of a driver that was set up by a plan and got `handle` for its device.
pub open spec fn planned_driver(plan: SetupPlan, handle: DeviceHandle) -> DriverState {
    DriverState {
        link: Link { handle, cs_keep_active: plan.cs_keep_active },
        max_transfer_size: plan.max_transfer_size as int,
        trans_len: plan.trans_len as int,
    }
}

/// How far a setup has come; it holds the controller until the driver does.
#[derive(Debug)]
pub enum SetupStage<SPI: Spi> {
    Start(SPI),
    InitializingBus(SPI),
    AddingDevice(SPI),
    Done,
}

/// What a setup wants next.
#[derive(Debug)]
pub enum SetupAction<SPI: Spi> {
    /// Initialize the bus of this host, with this DMA channel.
    InitializeBus(SpiHost, BusConfig, u32),
    /// Add a device to the bus of this host.
    AddDevice(SpiHost, DeviceConfig),
    /// The setup returns this.
    Return(Result<SpiMasterDriver<SPI>, EspError>),
}

/// What came of the last action.
#[derive(Copy, Clone, Debug, PartialEq, Eq, Structural)]
pub enum SetupReply {
    /// There was none: the setup begins.
    Start,
    /// The status of the bus initialization.
    BusInitialized(i32),
    /// The status of adding the device, and its handle where that succeeded.
    DeviceAdded(i32, DeviceHandle),
}

impl<SPI: Spi> SetupStage<SPI> {
    /// Whether a reply is one to the action that led to this stage.
    pub open spec fn expects(self, reply: SetupReply) -> bool {
        match self {
            SetupStage::Start(_) => reply is Start,
            SetupStage::InitializingBus(_) => reply is BusInitialized,
            SetupStage::AddingDevice(_) => reply is DeviceAdded,
            SetupStage::Done => false,
        }
    }
}

/// What a setup does at a stage when a reply comes in: it returns the first failure, and adds no
/// device to a bus that failed.
pub open spec fn setup_step<SPI: Spi>(
    plan: SetupPlan,
    stage: SetupStage<SPI>,
    reply: SetupReply,
    next: SetupStage<SPI>,
    action: SetupAction<SPI>,
) -> bool {
    match (stage, reply) {
        (SetupStage::Start(spi), SetupReply::Start) => {
            &&& next == SetupStage::InitializingBus(spi)
            &&& action == SetupAction::<SPI>::InitializeBus(
                plan.host,
                plan.bus_config,
                plan.dma_channel,
            )
        },
        (SetupStage::InitializingBus(spi), SetupReply::BusInitialized(status)) => {
            match esp_result(status) {
                Ok(_) => {
                    &&& next == SetupStage::AddingDevice(spi)
                    &&& action == SetupAction::<SPI>::AddDevice(plan.host, plan.device_config)
                },
                Err(e) => {
                    &&& next == SetupStage::<SPI>::Done
                    &&& action == SetupAction::<SPI>::Return(Err(e))
                },
            }
        },
        (SetupStage::AddingDevice(spi), SetupReply::DeviceAdded(status, handle)) => {
            &&& next == SetupStage::<SPI>::Done
            &&& match esp_result(status) {
                Ok(_) => {
                    &&& action matches SetupAction::Return(Ok(driver))
                    &&& driver.wf()
                    &&& driver@ == planned_driver(plan, handle)
                },
                Err(e) => action == SetupAction::<SPI>::Return(Err(e)),
            }
        },
        _ => false,
    }
}

/// A driver that is being set up.
#[derive(Debug)]
pub struct Setup<SPI: Spi> {
    plan: SetupPlan,
    stage: SetupStage<SPI>,
}

fn pin_number(pin: Option<i32>) -> (number: i32)
    ensures
        number == pin_or_none(pin),
{
    match pin {
        Some(number) => number,
        None => NO_PIN,
    }
}

impl<SPI: Spi> Setup<SPI> {
    pub closed spec fn plan(&self) -> SetupPlan {
        self.plan
    }

    pub closed spec fn stage(&self) -> SetupStage<SPI> {
        self.stage
    }

    pub open spec fn wf(&self) -> bool {
        &&& self.plan().max_transfer_size <= MAX_TRANSFER_SIZE
        &&& self.plan().trans_len <= TRANS_LEN_LIMIT
    }

    pub(crate) fn new(spi: SPI, pins: Pins, config: &Config, sdk: &Sdk) -> (setup: Setup<SPI>)
        requires
            config.dma.valid(sdk.spec_trans_len()),
        ensures
            setup.wf(),
            setup.plan() == setup_plan(SPI::host(), pins, *config, *sdk),
            setup.stage() == SetupStage::Start(spi),
            setup.plan().host == SPI::host(),
            config.baudrate.0 <= i32::MAX ==> setup.plan().device_config.clock_speed_hz
                == config.baudrate.0,
            config.baudrate.0 > i32::MAX ==> setup.plan().device_config.clock_speed_hz
                == config.baudrate.0 - 0x1_0000_0000,
            setup.plan().cs_keep_active == sdk.spi_trans_cs_keep_active,
            setup.plan().max_transfer_size == setup.plan().bus_config.max_transfer_sz,
    {
        let trans_len: usize = sdk.trans_len();
        let max_transfer_size: usize = config.dma.max_transfer_size(trans_len);

        let bus_config = BusConfig {
            flags: sdk.spicommon_busflag_master,
            sclk_io_num: pins.sclk,
            mosi_io_num: pins.sdo,
            miso_io_num: pin_number(pins.sdi),
            quadwp_io_num: NO_PIN,
            quadhd_io_num: NO_PIN,
            data4_io_num: NO_PIN,
            data5_io_num: NO_PIN,
            data6_io_num: NO_PIN,
            data7_io_num: NO_PIN,
            max_transfer_sz: max_transfer_size as i32,
        };

        let baudrate: u32 = config.baudrate.0;
        assert(baudrate as i32 == if baudrate <= 0x7fff_ffffu32 {
            baudrate as int
        } else {
            baudrate - 0x1_0000_0000
        }) by (bit_vector);
        let polarity: u8 = if config.data_mode.polarity == Polarity::IdleHigh {
            2
        } else {
            0
        };
        let phase: u8 = if config.data_mode.phase == Phase::CaptureOnSecondTransition {
            1
        } else {
            0
        };
        let device_config = DeviceConfig {
            spics_io_num: pin_number(pins.cs),
            clock_speed_hz: #[verifier::truncate]
            (baudrate as i32),
            mode: polarity + phase,
            queue_size: QUEUE_SIZE,
            flags: if config.write_only {
                sdk.spi_device_no_dummy
            } else {
                0
            },
        };

        let plan = SetupPlan {
            host: SPI::device(),
            bus_config,
            dma_channel: u32::from(config.dma),
            device_config,
            max_transfer_size,
            trans_len,
            cs_keep_active: sdk.spi_trans_cs_keep_active,
        };
        Setup { plan, stage: SetupStage::Start(spi) }
    }

    /// Moves the setup on. `reply` is what came of the action that was last handed out; before
    /// the first one it is `SetupReply::Start`.
    pub fn step(self, reply: SetupReply) -> (res: (Setup<SPI>, SetupAction<SPI>))
        requires
            self.wf(),
            self.stage().expects(reply),
        ensures
            res.0.wf(),
            res.0.plan() == self.plan(),
            setup_step(self.plan(), self.stage(), reply, res.0.stage(), res.1),
    {
        let plan = self.plan;
        let (stage, action) = match (self.stage, reply) {
            (SetupStage::Start(spi), _) => (
                SetupStage::InitializingBus(spi),
                SetupAction::InitializeBus(plan.host, plan.bus_config, plan.dma_channel),
            ),
            (SetupStage::InitializingBus(spi), SetupReply::BusInitialized(status)) => {
                match esp(status) {
                    Ok(_) => (
                        SetupStage::AddingDevice(spi),
                        SetupAction::AddDevice(plan.host, plan.device_config),
                    ),
                    Err(e) => (SetupStage::Done, SetupAction::Return(Err(e))),
                }
            },
            (SetupStage::AddingDevice(spi), SetupReply::DeviceAdded(status, handle)) => {
                match esp(status) {
                    Ok(_) => {
                        let link = Link { handle, cs_keep_active: plan.cs_keep_active };
                        let driver = SpiMasterDriver::assemble(
                            spi,
                            link,
                            plan.max_transfer_size,
                            plan.trans_len,
                        );
                        (SetupStage::Done, SetupAction::Return(Ok(driver)))
                    },
                    Err(e) => (SetupStage::Done, SetupAction::Return(Err(e))),
                }
            },
            _ => vstd::pervasive::unreached(),
        };
        (Setup { plan, stage }, action)
    }
}

/// The modes have the numbers from 0 to 3, each its own.
pub proof fn law_mode_numbers(a: Mode, b: Mode)
    ensures
        0 <= mode_number(a) <= 3,
        mode_number(a) == mode_number(b) ==> a == b,
{
}

/// The clock of a device runs at the baudrate that was asked for, in either direction, in every
/// mode, and on every bus. A baudrate above `i32::MAX` wraps around.
pub proof fn law_clock_is_baudrate(host: SpiHost, pins: Pins, config: Config, sdk: Sdk)
    ensures
        ({
            let speed = setup_plan(host, pins, config, sdk).device_config.clock_speed_hz;
            &&& config.baudrate.0 <= 0x7fff_ffff ==> speed == config.baudrate.0
            &&& config.baudrate.0 > 0x7fff_ffff ==> speed == config.baudrate.0 - 0x1_0000_0000
        }),
{
}

/// The mode of a device is the one that was asked for: 2 for a clock that idles high, and 1 for
/// one that captures on the second transition.
pub proof fn law_mode_is_data_mode(host: SpiHost, pins: Pins, config: Config, sdk: Sdk)
    ensures
        ({
            let mode = setup_plan(host, pins, config, sdk).device_config.mode;
            &&& mode == match (config.data_mode.polarity, config.data_mode.phase) {
                (Polarity::IdleLow, Phase::CaptureOnFirstTransition) => 0u8,
                (Polarity::IdleLow, Phase::CaptureOnSecondTransition) => 1u8,
                (Polarity::IdleHigh, Phase::CaptureOnFirstTransition) => 2u8,
                (Polarity::IdleHigh, Phase::CaptureOnSecondTransition) => 3u8,
            }
        }),
{
}

/// A device is added on its CS pin, or on none, with a queue of 64, and without dummy bits if and
/// only if it is write only.
pub proof fn law_device_as_configured(host: SpiHost, pins: Pins, config: Config, sdk: Sdk)
    ensures
        ({
            let device = setup_plan(host, pins, config, sdk).device_config;
            &&& pins.cs matches Some(pin) ==> device.spics_io_num == pin
            &&& pins.cs is None ==> device.spics_io_num == -1
            &&& device.queue_size == 64
            &&& config.write_only ==> device.flags == sdk.spi_device_no_dummy
            &&& !config.write_only ==> device.flags == 0
        }),
{
}

/// A bus is initialized on the host that was asked for, as a master, on its three pins, or two
/// where nothing is received, and on no other pin, with the DMA channel that was asked for.
pub proof fn law_bus_as_configured(host: SpiHost, pins: Pins, config: Config, sdk: Sdk)
    ensures
        ({
            let plan = setup_plan(host, pins, config, sdk);
            let bus = plan.bus_config;
            &&& plan.host == host
            &&& bus.flags == sdk.spicommon_busflag_master
            &&& bus.sclk_io_num == pins.sclk
            &&& bus.mosi_io_num == pins.sdo
            &&& pins.sdi matches Some(pin) ==> bus.miso_io_num == pin
            &&& pins.sdi is None ==> bus.miso_io_num == -1
            &&& bus.quadwp_io_num == -1
            &&& bus.quadhd_io_num == -1
            &&& bus.data4_io_num == -1
            &&& bus.data5_io_num == -1
            &&& bus.data6_io_num == -1
            &&& bus.data7_io_num == -1
            &&& plan.dma_channel == match config.dma {
                Dma::Disabled => 0u32,
                Dma::Channel1(_) => 1u32,
                Dma::Channel2(_) => 2u32,
                Dma::Auto(_) => 3u32,
            }
        }),
{
}

/// The sizes of a plan: without DMA a transmission has as many bytes at most as the chip moves,
/// but 64 at most; with DMA as many as the channel came with, but 4096 at most. The bus is set up
/// for the same size.
pub proof fn law_sizes_as_configured(host: SpiHost, pins: Pins, config: Config, sdk: Sdk)
    ensures
        ({
            let plan = setup_plan(host, pins, config, sdk);
            let chip = sdk.soc_spi_maximum_buffer_size;
            let without_dma = if chip < 64 {
                chip as int
            } else {
                64
            };
            let size = plan.max_transfer_size;
            &&& plan.trans_len == without_dma
            &&& plan.bus_config.max_transfer_sz == size
            &&& plan.cs_keep_active == sdk.spi_trans_cs_keep_active
            &&& match config.dma {
                Dma::Disabled => size == without_dma,
                Dma::Channel1(asked) => size == if asked > 4096 {
                    4096
                } else {
                    asked
                },
                Dma::Channel2(asked) => size == if asked > 4096 {
                    4096
                } else {
                    asked
                },
                Dma::Auto(asked) => size == if asked > 4096 {
                    4096
                } else {
                    asked
                },
            }
        }),
{
}

/// The size at which a driver cuts its buffers is the one that its bus is set up for, a multiple
/// of 4, and 4096 at most; the buffer of `write_iter` has 64 bytes at most.
pub proof fn law_plan_fits_bus(host: SpiHost, pins: Pins, config: Config, sdk: Sdk)
    requires
        config.dma.valid(sdk.spec_trans_len()),
    ensures
        ({
            let plan = setup_plan(host, pins, config, sdk);
            &&& plan.max_transfer_size == plan.bus_config.max_transfer_sz
            &&& plan.max_transfer_size % 4 == 0
            &&& plan.max_transfer_size <= 4096
            &&& plan.trans_len <= 64
        }),
{
}

/// A setup initializes the bus, adds the device only where that succeeded, does each at most
/// once, and gives a driver if and only if both succeed. The driver has the handle of the device,
/// and the sizes and the CS flag of the plan.
pub proof fn law_setup_order<SPI: Spi>(
    plan: SetupPlan,
    spi: SPI,
    initialized: i32,
    added: i32,
    handle: DeviceHandle,
    s1: SetupStage<SPI>,
    a1: SetupAction<SPI>,
    s2: SetupStage<SPI>,
    a2: SetupAction<SPI>,
    s3: SetupStage<SPI>,
    a3: SetupAction<SPI>,
)
    requires
        setup_step(plan, SetupStage::Start(spi), SetupReply::Start, s1, a1),
        setup_step(plan, s1, SetupReply::BusInitialized(initialized), s2, a2),
        s2 is Done || setup_step(plan, s2, SetupReply::DeviceAdded(added, handle), s3, a3),
    ensures
        SetupStage::Start(spi).expects(SetupReply::Start),
        a1 == SetupAction::<SPI>::InitializeBus(plan.host, plan.bus_config, plan.dma_channel),
        s1.expects(SetupReply::BusInitialized(initialized)),
        match esp_result(initialized) {
            Err(e) => s2 is Done && a2 == SetupAction::<SPI>::Return(Err(e)),
            Ok(_) => {
                &&& a2 == SetupAction::<SPI>::AddDevice(plan.host, plan.device_config)
                &&& s2.expects(SetupReply::DeviceAdded(added, handle))
                &&& s3 is Done
                &&& a3 matches SetupAction::Return(result)
                &&& match esp_result(added) {
                    Err(e) => result == Err::<SpiMasterDriver<SPI>, EspError>(e),
                    Ok(_) => {
                        &&& result matches Ok(driver)
                        &&& driver@ == planned_driver(plan, handle)
                        &&& driver@.link.handle == handle
                        &&& driver@.link.cs_keep_active == plan.cs_keep_active
                        &&& driver@.max_transfer_size == plan.max_transfer_size
                        &&& driver@.trans_len == plan.trans_len
                    },
                }
            },
        },
{
}

} // verus!
