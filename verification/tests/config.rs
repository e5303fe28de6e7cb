use esp_idf_spi::config::{Config, Hertz, Mode, Phase, Polarity, SpiMasterConfig, V02Type};
use esp_idf_spi::dma::Dma;
use esp_idf_spi::error::{to_spi_err, ErrorKind, SpiError};
use esp_idf_spi::gpio::{Gpio6, Gpio7, Gpio8};
use esp_idf_spi::host::{Spi, SPI1, SPI2, SPI3};
use esp_idf_spi::sys::{EspError, Sdk, SpiHost};
use esp_idf_spi::v02;

fn chip(maximum: u32) -> Sdk {
    Sdk {
        soc_spi_maximum_buffer_size: maximum,
        spicommon_busflag_master: 1,
        spi_device_no_dummy: 64,
        spi_trans_cs_keep_active: Some(256),
    }
}

#[test]
fn default_config() {
    let config = Config::new();
    assert_eq!(config, Config::default());
    assert_eq!(config.baudrate, Hertz(1_000_000));
    assert_eq!(config.data_mode.polarity, Polarity::IdleLow);
    assert_eq!(config.data_mode.phase, Phase::CaptureOnFirstTransition);
    assert!(!config.write_only);
    assert_eq!(config.dma, Dma::Disabled);
}

#[test]
fn builders_change_one_field() {
    let mode = Mode {
        polarity: Polarity::IdleHigh,
        phase: Phase::CaptureOnSecondTransition,
    };
    let config: SpiMasterConfig = Config::new()
        .baudrate(Hertz(26_000_000))
        .data_mode(mode)
        .write_only(true)
        .dma(Dma::Auto(512));
    assert_eq!(
        config,
        Config {
            baudrate: Hertz(26_000_000),
            data_mode: mode,
            write_only: true,
            dma: Dma::Auto(512),
        }
    );
    let base = Config::new();
    assert_eq!(base.write_only(true), Config { write_only: true, ..base });
}

#[test]
fn dma_channels() {
    assert_eq!(u32::from(Dma::Disabled), 0);
    assert_eq!(u32::from(Dma::Channel1(4)), 1);
    assert_eq!(u32::from(Dma::Channel2(4)), 2);
    assert_eq!(u32::from(Dma::Auto(4)), 3);
}

#[test]
fn transfer_sizes() {
    assert_eq!(Dma::Disabled.max_transfer_size(64), 64);
    assert_eq!(Dma::Channel1(1024).max_transfer_size(64), 1024);
    assert_eq!(Dma::Channel2(4096).max_transfer_size(64), 4096);
    assert_eq!(Dma::Auto(4100).max_transfer_size(64), 4096);
    assert_eq!(Dma::Auto(0).max_transfer_size(64), 0);
    assert!(Dma::Disabled.is_valid(64));
    assert!(!Dma::Disabled.is_valid(63));
    assert!(!Dma::Channel1(4097).is_valid(64));
    assert!(!Dma::Channel2(2).is_valid(64));
}

#[test]
fn buffer_limit_of_the_chip() {
    assert_eq!(chip(64).trans_len(), 64);
    assert_eq!(chip(72).trans_len(), 64);
    assert_eq!(chip(63).trans_len(), 63);
    assert_eq!(chip(0).trans_len(), 0);
}

#[test]
fn modes_of_version_0_2() {
    for (old, new) in [
        (v02::Polarity::IdleLow, Polarity::IdleLow),
        (v02::Polarity::IdleHigh, Polarity::IdleHigh),
    ] {
        assert_eq!(Polarity::from(V02Type(old)), new);
    }
    for (old, new) in [
        (v02::Phase::CaptureOnFirstTransition, Phase::CaptureOnFirstTransition),
        (v02::Phase::CaptureOnSecondTransition, Phase::CaptureOnSecondTransition),
    ] {
        assert_eq!(Phase::from(V02Type(old)), new);
    }
    let mode = v02::Mode {
        polarity: v02::Polarity::IdleHigh,
        phase: v02::Phase::CaptureOnFirstTransition,
    };
    let converted: Mode = V02Type(mode).into();
    assert_eq!(
        converted,
        Mode {
            polarity: Polarity::IdleHigh,
            phase: Phase::CaptureOnFirstTransition,
        }
    );
}

#[test]
fn hosts_and_fixed_pins() {
    assert_eq!(SPI1::device(), SpiHost::Spi1);
    assert_eq!(SPI2::device(), SpiHost::Spi2);
    assert_eq!(SPI3::device(), SpiHost::Spi3);
    assert_eq!(Gpio6.pin(), 6);
    assert_eq!(Gpio7.pin(), 7);
    assert_eq!(Gpio8.pin(), 8);
}

#[test]
fn spi_errors_keep_their_cause() {
    let cause = EspError { code: 0x107 };
    let error = to_spi_err(cause);
    assert_eq!(error.kind(), ErrorKind::Other);
    assert_eq!(error.cause(), cause);
    assert_eq!(SpiError::from(cause), error);
    assert_eq!(SpiError::other(cause), error);
}
