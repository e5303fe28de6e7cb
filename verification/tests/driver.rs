use esp_idf_spi::blocking::{BlockingAction, BlockingCall};
use esp_idf_spi::bus::{BusAction, BusCall, SpiBusMasterDriver};
use esp_idf_spi::call::CallReply;
use esp_idf_spi::chunk::Span;
use esp_idf_spi::config::{Config, Hertz, Mode, Phase, Polarity};
use esp_idf_spi::dma::Dma;
use esp_idf_spi::error::SpiError;
use esp_idf_spi::exec::{ExecAction, Operation};
use esp_idf_spi::gpio::{Gpio6, Gpio7, Gpio8};
use esp_idf_spi::host::{SPI1, SPI2, SPI3};
use esp_idf_spi::master::SpiMasterDriver;
use esp_idf_spi::setup::{SetupAction, SetupReply};
use esp_idf_spi::sys::{DeviceHandle, EspError, Sdk, SpiHost};
use esp_idf_spi::teardown::TeardownAction;
use esp_idf_spi::transaction::{Action, Failure, Lock, Reply};
use esp_idf_spi::transmission::{polling_transmit, Link, Transmission};
use esp_idf_spi::write_iter::{WriteIterAction, WriteIterReply};

const KEEP: u32 = 0x100;
const MASTER: u32 = 0x1;
const NO_DUMMY: u32 = 0x40;
const HANDLE: DeviceHandle = DeviceHandle(0x3ffb_1234);

fn sdk() -> Sdk {
    Sdk {
        soc_spi_maximum_buffer_size: 72,
        spicommon_busflag_master: MASTER,
        spi_device_no_dummy: NO_DUMMY,
        spi_trans_cs_keep_active: Some(KEEP),
    }
}

fn driver_on(sdk: &Sdk, dma: Dma) -> SpiMasterDriver<SPI2> {
    let config = Config::new().dma(dma);
    let setup = SpiMasterDriver::new(SPI2, 18, 23, Some(19), Some(5), &config, sdk);
    let (setup, _) = setup.step(SetupReply::Start);
    let (setup, _) = setup.step(SetupReply::BusInitialized(0));
    match setup.step(SetupReply::DeviceAdded(0, HANDLE)).1 {
        SetupAction::Return(Ok(driver)) => driver,
        other => panic!("no driver: {:?}", other),
    }
}

fn driver(dma: Dma) -> SpiMasterDriver<SPI2> {
    driver_on(&sdk(), dma)
}

fn bus(driver: &mut SpiMasterDriver<SPI2>) -> SpiBusMasterDriver {
    let (transaction, _) = driver.transaction::<(), ()>().step(Reply::Start);
    match transaction.step(Reply::Acquired(0)).1 {
        Action::Run(bus) => bus,
        other => panic!("no bus: {:?}", other),
    }
}

fn span(start: usize, len: usize) -> Option<Span> {
    Some(Span { start, len })
}

fn sent(flags: u32, tx: Option<Span>, rx: Option<Span>, bytes: usize, rx_bytes: usize) -> Transmission {
    Transmission {
        handle: HANDLE,
        flags,
        tx,
        rx,
        length: bytes * 8,
        rxlength: rx_bytes * 8,
    }
}

fn other(code: i32) -> SpiError {
    SpiError::other(EspError { code })
}

/// Runs a call on the bus; the statuses are those of its transmissions, then all succeed.
fn run(mut call: BusCall, statuses: &[i32]) -> (Vec<Transmission>, Result<(), EspError>) {
    let mut all = Vec::new();
    let mut statuses = statuses.iter();
    let mut status = 0;
    loop {
        let (next, action) = call.step(status);
        call = next;
        match action {
            BusAction::Transmit(t) => {
                all.push(t);
                status = *statuses.next().unwrap_or(&0);
            }
            BusAction::Return(result) => return (all, result),
        }
    }
}

fn run_blocking(mut call: BlockingCall, acquired: i32, statuses: &[i32]) -> Vec<BlockingAction> {
    let mut all = Vec::new();
    let mut statuses = statuses.iter();
    let mut reply = CallReply::Start;
    loop {
        let (next, action) = call.step(reply);
        call = next;
        reply = match &action {
            BlockingAction::AcquireBus(_) => CallReply::Acquired(acquired),
            BlockingAction::Transmit(_) => CallReply::Transmitted(*statuses.next().unwrap_or(&0)),
            BlockingAction::ReleaseBus(_) => CallReply::Released,
            BlockingAction::Return(_) => {
                all.push(action);
                return all;
            }
        };
        all.push(action);
    }
}

fn run_exec(
    driver: &mut SpiMasterDriver<SPI2>,
    operations: Vec<Operation>,
    acquired: i32,
    statuses: &[i32],
) -> Vec<ExecAction> {
    let mut all = Vec::new();
    let mut statuses = statuses.iter();
    let mut call = driver.exec(operations);
    let mut reply = CallReply::Start;
    loop {
        let (next, action) = call.step(reply);
        call = next;
        reply = match &action {
            ExecAction::AcquireBus(_) => CallReply::Acquired(acquired),
            ExecAction::Transmit(_, _) | ExecAction::Finish(_) => {
                CallReply::Transmitted(*statuses.next().unwrap_or(&0))
            }
            ExecAction::ReleaseBus(_) => CallReply::Released,
            ExecAction::Return(_) => {
                all.push(action);
                return all;
            }
        };
        all.push(action);
    }
}

struct Written {
    actions: Vec<WriteIterAction>,
    bytes: Vec<u8>,
    pulls: usize,
    result: Result<(), SpiError>,
}

/// Writes from a source; a `None` in it is a pull that finds nothing.
fn run_write_iter(
    driver: &mut SpiMasterDriver<SPI2>,
    words: &[Option<u8>],
    acquired: i32,
    statuses: &[i32],
) -> Written {
    let mut written = Written {
        actions: Vec::new(),
        bytes: Vec::new(),
        pulls: 0,
        result: Ok(()),
    };
    let mut statuses = statuses.iter();
    let mut words = words.iter();
    let mut call = driver.write_iter();
    let mut reply = WriteIterReply::Start;
    loop {
        let (next, action) = call.step(reply);
        call = next;
        reply = match &action {
            WriteIterAction::AcquireBus(_) => WriteIterReply::Acquired(acquired),
            WriteIterAction::NextWord => {
                written.pulls += 1;
                WriteIterReply::Word(*words.next().unwrap_or(&None))
            }
            WriteIterAction::Transmit(t) => {
                let span = t.tx.unwrap();
                written
                    .bytes
                    .extend_from_slice(&call.words()[span.start..span.start + span.len]);
                WriteIterReply::Transmitted(*statuses.next().unwrap_or(&0))
            }
            WriteIterAction::Finish(_) => {
                WriteIterReply::Transmitted(*statuses.next().unwrap_or(&0))
            }
            WriteIterAction::ReleaseBus(_) => WriteIterReply::Released,
            WriteIterAction::Return(result) => {
                written.result = *result;
                return written;
            }
        };
        if action != WriteIterAction::NextWord {
            written.actions.push(action);
        }
    }
}

#[test]
fn setup_of_a_free_controller() {
    let config = Config::new()
        .baudrate(Hertz(3_000_000_000))
        .data_mode(Mode {
            polarity: Polarity::IdleHigh,
            phase: Phase::CaptureOnSecondTransition,
        })
        .write_only(true)
        .dma(Dma::Channel2(8192));
    let setup = SpiMasterDriver::new(SPI3, 18, 23, None, Some(5), &config, &sdk());
    let (setup, action) = setup.step(SetupReply::Start);
    match action {
        SetupAction::InitializeBus(host, bus, channel) => {
            assert_eq!(host, SpiHost::Spi3);
            assert_eq!(channel, 2);
            assert_eq!(bus.flags, MASTER);
            assert_eq!(bus.sclk_io_num, 18);
            assert_eq!(bus.mosi_io_num, 23);
            assert_eq!(bus.miso_io_num, -1);
            assert_eq!(bus.quadwp_io_num, -1);
            assert_eq!(bus.quadhd_io_num, -1);
            assert_eq!(bus.data4_io_num, -1);
            assert_eq!(bus.data5_io_num, -1);
            assert_eq!(bus.data6_io_num, -1);
            assert_eq!(bus.data7_io_num, -1);
            assert_eq!(bus.max_transfer_sz, 4096);
        }
        other => panic!("{:?}", other),
    }
    let (setup, action) = setup.step(SetupReply::BusInitialized(0));
    match action {
        SetupAction::AddDevice(host, device) => {
            assert_eq!(host, SpiHost::Spi3);
            assert_eq!(device.spics_io_num, 5);
            assert_eq!(device.clock_speed_hz, 3_000_000_000_u32 as i32);
            assert_eq!(device.mode, 3);
            assert_eq!(device.queue_size, 64);
            assert_eq!(device.flags, NO_DUMMY);
        }
        other => panic!("{:?}", other),
    }
    match setup.step(SetupReply::DeviceAdded(0, HANDLE)).1 {
        SetupAction::Return(Ok(mut driver)) => {
            assert_eq!(driver.device_handle(), HANDLE);
            assert_eq!(driver.max_transfer_size(), 4096);
        }
        other => panic!("{:?}", other),
    }
}

#[test]
fn setup_of_spi1() {
    let config = Config::new();
    let setup = SpiMasterDriver::new_spi1(SPI1, Gpio6, Gpio7, Some(Gpio8), None, &config, &sdk());
    let (setup, action) = setup.step(SetupReply::Start);
    match action {
        SetupAction::InitializeBus(host, bus, channel) => {
            assert_eq!(host, SpiHost::Spi1);
            assert_eq!(channel, 0);
            assert_eq!((bus.sclk_io_num, bus.mosi_io_num, bus.miso_io_num), (6, 7, 8));
            assert_eq!(bus.max_transfer_sz, 64);
        }
        other => panic!("{:?}", other),
    }
    match setup.step(SetupReply::BusInitialized(0)).1 {
        SetupAction::AddDevice(_, device) => {
            assert_eq!(device.spics_io_num, -1);
            assert_eq!(device.clock_speed_hz, 1_000_000);
            assert_eq!(device.mode, 0);
            assert_eq!(device.flags, 0);
        }
        other => panic!("{:?}", other),
    }
}

#[test]
fn clock_mode_numbers() {
    for (polarity, phase, number) in [
        (Polarity::IdleLow, Phase::CaptureOnFirstTransition, 0),
        (Polarity::IdleLow, Phase::CaptureOnSecondTransition, 1),
        (Polarity::IdleHigh, Phase::CaptureOnFirstTransition, 2),
        (Polarity::IdleHigh, Phase::CaptureOnSecondTransition, 3),
    ] {
        let config = Config::new().data_mode(Mode { polarity, phase });
        let setup = SpiMasterDriver::new(SPI2, 1, 2, None, None, &config, &sdk());
        let (setup, _) = setup.step(SetupReply::Start);
        match setup.step(SetupReply::BusInitialized(0)).1 {
            SetupAction::AddDevice(_, device) => assert_eq!(device.mode, number),
            other => panic!("{:?}", other),
        }
    }
}

#[test]
fn setup_stops_at_the_first_failure() {
    let config = Config::new();
    let setup = SpiMasterDriver::new(SPI2, 1, 2, None, None, &config, &sdk());
    let (setup, _) = setup.step(SetupReply::Start);
    match setup.step(SetupReply::BusInitialized(0x103)).1 {
        SetupAction::Return(Err(e)) => assert_eq!(e.code(), 0x103),
        other => panic!("{:?}", other),
    }
    let setup = SpiMasterDriver::new(SPI2, 1, 2, None, None, &config, &sdk());
    let (setup, _) = setup.step(SetupReply::Start);
    let (setup, _) = setup.step(SetupReply::BusInitialized(0));
    match setup.step(SetupReply::DeviceAdded(0x105, DeviceHandle(0))).1 {
        SetupAction::Return(Err(e)) => assert_eq!(e.code(), 0x105),
        other => panic!("{:?}", other),
    }
}

fn teardown(removed: i32, freed: i32) -> Vec<TeardownAction> {
    let mut all = Vec::new();
    let mut teardown = driver(Dma::Disabled).drop();
    let mut status = 0;
    loop {
        let (next, action) = teardown.step(status);
        teardown = next;
        status = match &action {
            TeardownAction::RemoveDevice(_) => removed,
            TeardownAction::FreeBus(_) => freed,
            TeardownAction::Return(_) => {
                all.push(action);
                return all;
            }
        };
        all.push(action);
    }
}

#[test]
fn teardown_removes_then_frees() {
    assert_eq!(
        teardown(0, 0),
        vec![
            TeardownAction::RemoveDevice(HANDLE),
            TeardownAction::FreeBus(SpiHost::Spi2),
            TeardownAction::Return(Ok(())),
        ]
    );
    assert_eq!(
        teardown(0, 7),
        vec![
            TeardownAction::RemoveDevice(HANDLE),
            TeardownAction::FreeBus(SpiHost::Spi2),
            TeardownAction::Return(Err(EspError { code: 7 })),
        ]
    );
    assert_eq!(
        teardown(9, 0),
        vec![
            TeardownAction::RemoveDevice(HANDLE),
            TeardownAction::Return(Err(EspError { code: 9 })),
        ]
    );
}

#[test]
fn transmission_fields() {
    let link = Link { handle: HANDLE, cs_keep_active: Some(KEEP) };
    assert_eq!(
        polling_transmit(link, span(3, 4), span(5, 6), 6, 4, true),
        sent(KEEP, span(5, 6), span(3, 4), 6, 4)
    );
    assert_eq!(
        polling_transmit(link, None, None, 0, 0, false),
        sent(0, None, None, 0, 0)
    );
    let old = Link { handle: HANDLE, cs_keep_active: None };
    assert_eq!(polling_transmit(old, None, span(0, 1), 1, 0, true).flags, 0);
}

#[test]
fn write_is_cut_into_transmissions() {
    let mut driver = driver(Dma::Auto(8));
    let mut bus = bus(&mut driver);
    assert_eq!(
        run(bus.write(20), &[]),
        (
            vec![
                sent(KEEP, span(0, 8), None, 8, 0),
                sent(KEEP, span(8, 8), None, 8, 0),
                sent(KEEP, span(16, 4), None, 4, 0),
            ],
            Ok(())
        )
    );
    assert_eq!(run(bus.write(0), &[]), (vec![], Ok(())));
    assert_eq!(run(bus.write(16), &[]).0.len(), 2);
}

#[test]
fn read_is_cut_into_transmissions() {
    let mut driver = driver(Dma::Auto(8));
    let mut bus = bus(&mut driver);
    assert_eq!(
        run(bus.read(9), &[]),
        (
            vec![
                sent(KEEP, None, span(0, 8), 8, 8),
                sent(KEEP, None, span(8, 1), 1, 1),
            ],
            Ok(())
        )
    );
}

#[test]
fn transfer_goes_on_with_the_longer_buffer() {
    let mut driver = driver(Dma::Auto(8));
    let mut bus = bus(&mut driver);
    assert_eq!(
        run(bus.transfer(10, 20), &[]).0,
        vec![
            sent(KEEP, span(0, 8), span(0, 8), 8, 8),
            sent(KEEP, span(8, 2), span(8, 2), 2, 2),
            sent(KEEP, span(10, 8), None, 8, 0),
            sent(KEEP, span(18, 2), None, 2, 0),
        ]
    );
    assert_eq!(
        run(bus.transfer(12, 3), &[]).0,
        vec![
            sent(KEEP, span(0, 3), span(0, 3), 3, 3),
            sent(KEEP, None, span(3, 8), 8, 8),
            sent(KEEP, None, span(11, 1), 1, 1),
        ]
    );
    assert_eq!(
        run(bus.transfer(8, 8), &[]).0,
        vec![sent(KEEP, span(0, 8), span(0, 8), 8, 8)]
    );
    assert_eq!(
        run(bus.transfer(0, 2), &[]).0,
        vec![sent(KEEP, span(0, 2), None, 2, 0)]
    );
}

#[test]
fn transfer_in_place_uses_one_buffer() {
    let mut driver = driver(Dma::Auto(4));
    let mut bus = bus(&mut driver);
    assert_eq!(
        run(bus.transfer_in_place(6), &[]).0,
        vec![
            sent(KEEP, span(0, 4), span(0, 4), 4, 4),
            sent(KEEP, span(4, 2), span(4, 2), 2, 2),
        ]
    );
}

#[test]
fn bus_call_stops_at_the_first_failure() {
    let mut driver = driver(Dma::Auto(4));
    let mut bus = bus(&mut driver);
    let (all, result) = run(bus.write(100), &[0, 0, 0x107]);
    assert_eq!(all.len(), 3);
    assert_eq!(result, Err(EspError { code: 0x107 }));
    assert_eq!(bus.flush(), Ok(()));
}

#[test]
fn write_covers_every_byte_once() {
    for size in [4_usize, 8, 64, 4096] {
        let mut driver = driver(Dma::Channel1(size));
        let mut bus = bus(&mut driver);
        for len in 0..200_usize {
            let words: Vec<u8> = (0..len).map(|i| i as u8).collect();
            let mut out = Vec::new();
            for t in run(bus.write(len), &[]).0 {
                let s = t.tx.unwrap();
                assert!(s.len > 0 && s.len <= size);
                out.extend_from_slice(&words[s.start..s.start + s.len]);
            }
            assert_eq!(out, words);
        }
    }
}

#[test]
fn transaction_runs_in_order() {
    let mut driver = driver(Dma::Disabled);
    let (t, a) = driver.transaction::<u8, &str>().step(Reply::Start);
    assert_eq!(a, Action::AcquireBus(HANDLE));
    let (t, a) = t.step(Reply::Acquired(0));
    assert!(matches!(a, Action::Run(_)));
    let (t, a) = t.step(Reply::Ran(Ok(42)));
    assert_eq!(a, Action::Transmit(sent(0, None, None, 0, 0)));
    let (t, a) = t.step(Reply::Transmitted(0));
    assert_eq!(a, Action::ReleaseBus(HANDLE));
    assert_eq!(t.step(Reply::Released).1, Action::Return(Ok(42)));
}

fn finished(ran: Result<u8, &'static str>, status: i32) -> Result<u8, Failure<&'static str>> {
    let mut driver = driver(Dma::Disabled);
    let (t, _) = driver.transaction().step(Reply::Start);
    let (t, _) = t.step(Reply::Acquired(0));
    let (t, _) = t.step(Reply::Ran(ran));
    let (t, a) = t.step(Reply::Transmitted(status));
    assert_eq!(a, Action::ReleaseBus(HANDLE));
    match t.step(Reply::Released).1 {
        Action::Return(result) => result,
        other => panic!("{:?}", other),
    }
}

#[test]
fn transaction_failures() {
    assert_eq!(finished(Ok(1), 0), Ok(1));
    assert_eq!(finished(Err("body"), 0), Err(Failure::Body("body")));
    assert_eq!(finished(Err("body"), 5), Err(Failure::Body("body")));
    assert_eq!(finished(Ok(1), 5), Err(Failure::Driver(EspError { code: 5 })));

    let mut driver = driver(Dma::Disabled);
    let (t, _) = driver.transaction::<u8, ()>().step(Reply::Start);
    assert_eq!(
        t.step(Reply::Acquired(0x107)).1,
        Action::Return(Err(Failure::Driver(EspError { code: 0x107 })))
    );
}

#[test]
fn failures_become_errors() {
    assert_eq!(Failure::Body(other(3)).into_error(), other(3));
    let failure: Failure<SpiError> = Failure::Driver(EspError { code: 4 });
    assert_eq!(failure.into_error(), other(4));
}

#[test]
fn locks_come_of_success_only() {
    assert_eq!(Lock::new(HANDLE, 0), Ok(Lock { device: HANDLE }));
    assert_eq!(Lock::new(HANDLE, 2), Err(EspError { code: 2 }));
}

#[test]
fn blocking_write_lets_go_of_cs_at_the_end() {
    let mut driver = driver(Dma::Auto(8));
    assert_eq!(
        run_blocking(driver.write(18), 0, &[]),
        vec![
            BlockingAction::AcquireBus(HANDLE),
            BlockingAction::Transmit(sent(KEEP, span(0, 8), None, 8, 0)),
            BlockingAction::Transmit(sent(KEEP, span(8, 8), None, 8, 0)),
            BlockingAction::Transmit(sent(0, span(16, 2), None, 2, 0)),
            BlockingAction::ReleaseBus(HANDLE),
            BlockingAction::Return(Ok(())),
        ]
    );
}

#[test]
fn blocking_transfer_of_one_piece() {
    let mut driver = driver(Dma::Auto(8));
    assert_eq!(
        run_blocking(driver.transfer(8), 0, &[]),
        vec![
            BlockingAction::AcquireBus(HANDLE),
            BlockingAction::Transmit(sent(0, span(0, 8), span(0, 8), 8, 8)),
            BlockingAction::ReleaseBus(HANDLE),
            BlockingAction::Return(Ok(())),
        ]
    );
    assert_eq!(
        run_blocking(driver.transfer(0), 0, &[]),
        vec![
            BlockingAction::AcquireBus(HANDLE),
            BlockingAction::ReleaseBus(HANDLE),
            BlockingAction::Return(Ok(())),
        ]
    );
}

#[test]
fn blocking_call_transmits_nothing_without_the_bus() {
    let mut driver = driver(Dma::Auto(8));
    let refused = vec![
        BlockingAction::AcquireBus(HANDLE),
        BlockingAction::Return(Err(other(0x107))),
    ];
    assert_eq!(run_blocking(driver.write(3), 0x107, &[]), refused);
    assert_eq!(run_blocking(driver.transfer(20), 0x107, &[]), refused);
    let nothing_to_do = vec![
        BlockingAction::AcquireBus(HANDLE),
        BlockingAction::Return(Ok(())),
    ];
    assert_eq!(run_blocking(driver.write(0), 0x107, &[]), nothing_to_do);
    assert_eq!(run_blocking(driver.transfer(0), 0x107, &[]), nothing_to_do);
}

#[test]
fn blocking_call_stops_at_the_first_failure() {
    let mut driver = driver(Dma::Auto(4));
    assert_eq!(
        run_blocking(driver.transfer(12), 0, &[0, 3]),
        vec![
            BlockingAction::AcquireBus(HANDLE),
            BlockingAction::Transmit(sent(KEEP, span(0, 4), span(0, 4), 4, 4)),
            BlockingAction::Transmit(sent(KEEP, span(4, 4), span(4, 4), 4, 4)),
            BlockingAction::ReleaseBus(HANDLE),
            BlockingAction::Return(Err(other(3))),
        ]
    );
}

#[test]
fn exec_performs_operations_in_order() {
    let mut driver = driver(Dma::Auto(4));
    let operations = vec![
        Operation::Write(5),
        Operation::Write(0),
        Operation::Transfer(3),
    ];
    assert_eq!(
        run_exec(&mut driver, operations, 0, &[]),
        vec![
            ExecAction::AcquireBus(HANDLE),
            ExecAction::Transmit(0, sent(KEEP, span(0, 4), None, 4, 0)),
            ExecAction::Transmit(0, sent(KEEP, span(4, 1), None, 1, 0)),
            ExecAction::Transmit(2, sent(KEEP, span(0, 3), span(0, 3), 3, 3)),
            ExecAction::Finish(sent(0, None, None, 0, 0)),
            ExecAction::ReleaseBus(HANDLE),
            ExecAction::Return(Ok(())),
        ]
    );
}

#[test]
fn exec_failures() {
    let mut driver = driver(Dma::Auto(4));
    let operations = vec![Operation::Write(8), Operation::Transfer(3)];
    assert_eq!(
        run_exec(&mut driver, operations.clone(), 0, &[0, 8, 9]),
        vec![
            ExecAction::AcquireBus(HANDLE),
            ExecAction::Transmit(0, sent(KEEP, span(0, 4), None, 4, 0)),
            ExecAction::Transmit(0, sent(KEEP, span(4, 4), None, 4, 0)),
            ExecAction::Finish(sent(0, None, None, 0, 0)),
            ExecAction::ReleaseBus(HANDLE),
            ExecAction::Return(Err(other(8))),
        ]
    );
    let all = run_exec(&mut driver, operations.clone(), 0, &[0, 0, 0, 9]);
    assert_eq!(all.last(), Some(&ExecAction::Return(Err(other(9)))));
    assert_eq!(
        run_exec(&mut driver, operations, 4, &[]),
        vec![
            ExecAction::AcquireBus(HANDLE),
            ExecAction::Return(Err(other(4))),
        ]
    );
}

#[test]
fn exec_of_nothing() {
    let mut driver = driver(Dma::Auto(0));
    assert_eq!(
        run_exec(&mut driver, vec![], 0, &[]),
        vec![
            ExecAction::AcquireBus(HANDLE),
            ExecAction::Finish(sent(0, None, None, 0, 0)),
            ExecAction::ReleaseBus(HANDLE),
            ExecAction::Return(Ok(())),
        ]
    );
}

#[test]
fn write_iter_sends_what_it_pulls() {
    let mut driver = driver(Dma::Auto(32));
    for len in [0_usize, 1, 31, 63, 64, 65, 128, 200] {
        let words: Vec<u8> = (0..len).map(|i| (i * 7) as u8).collect();
        let source: Vec<Option<u8>> = words.iter().map(|w| Some(*w)).collect();
        let written = run_write_iter(&mut driver, &source, 0, &[]);
        assert_eq!(written.bytes, words);
        assert_eq!(written.result, Ok(()));
        // A buffer that the source left short is followed by one more pull.
        assert_eq!(written.pulls, len + 1 + usize::from(len % 64 != 0));
    }
}

#[test]
fn write_iter_actions() {
    let mut driver = driver(Dma::Disabled);
    let written = run_write_iter(&mut driver, &[Some(1), Some(2), Some(3)], 0, &[]);
    assert_eq!(
        written.actions,
        vec![
            WriteIterAction::AcquireBus(HANDLE),
            WriteIterAction::Transmit(sent(KEEP, span(0, 3), None, 3, 0)),
            WriteIterAction::Finish(sent(0, None, None, 0, 0)),
            WriteIterAction::ReleaseBus(HANDLE),
        ]
    );
}

#[test]
fn write_iter_pulls_again_after_a_short_buffer() {
    let mut driver = driver(Dma::Disabled);
    let written = run_write_iter(&mut driver, &[Some(1), None, Some(2), None, None], 0, &[]);
    assert_eq!(written.bytes, vec![1, 2]);
    assert_eq!(written.pulls, 5);
}

#[test]
fn write_iter_knows_when_a_write_begins() {
    let small = Sdk { soc_spi_maximum_buffer_size: 4, ..sdk() };
    let mut driver = driver_on(&small, Dma::Auto(8));
    let (call, _) = driver.write_iter().step(WriteIterReply::Start);
    let (mut call, _) = call.step(WriteIterReply::Acquired(0));
    assert!(!call.begins_write(&WriteIterReply::Word(None)));
    for word in 0..3 {
        assert!(!call.begins_write(&WriteIterReply::Word(Some(word))));
        let (next, action) = call.step(WriteIterReply::Word(Some(word)));
        assert_eq!(action, WriteIterAction::NextWord);
        call = next;
        assert!(call.begins_write(&WriteIterReply::Word(None)));
    }
    assert!(call.begins_write(&WriteIterReply::Word(Some(3))));
    assert!(!call.begins_write(&WriteIterReply::Released));
    let (call, action) = call.step(WriteIterReply::Word(Some(3)));
    assert_eq!(action, WriteIterAction::Transmit(sent(KEEP, span(0, 4), None, 4, 0)));
    assert_eq!(call.words(), &[0, 1, 2, 3]);
}

#[test]
fn write_iter_of_nothing() {
    let mut driver = driver(Dma::Auto(0));
    let written = run_write_iter(&mut driver, &[], 0, &[]);
    assert_eq!(written.result, Ok(()));
    assert_eq!(
        written.actions,
        vec![
            WriteIterAction::AcquireBus(HANDLE),
            WriteIterAction::Finish(sent(0, None, None, 0, 0)),
            WriteIterAction::ReleaseBus(HANDLE),
        ]
    );
}

#[test]
fn write_iter_failures() {
    let mut driver = driver(Dma::Auto(32));
    let source = [Some(0xaa); 200];
    let written = run_write_iter(&mut driver, &source, 0, &[0, 0x107, 1]);
    assert_eq!(written.result, Err(other(0x107)));
    assert_eq!(written.bytes.len(), 64);
    assert_eq!(written.pulls, 64);

    let written = run_write_iter(&mut driver, &source[..10], 0, &[0, 6]);
    assert_eq!(written.result, Err(other(6)));

    let written = run_write_iter(&mut driver, &source, 2, &[]);
    assert_eq!(written.result, Err(other(2)));
    assert_eq!(written.pulls, 0);
}

#[test]
fn nothing_keeps_cs_where_it_cannot_be_kept() {
    let old = Sdk { spi_trans_cs_keep_active: None, ..sdk() };
    let mut driver = driver_on(&old, Dma::Auto(4));
    for action in run_blocking(driver.write(12), 0, &[]) {
        if let BlockingAction::Transmit(t) = action {
            assert_eq!(t.flags, 0);
        }
    }
}
