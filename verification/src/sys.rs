//! What the driver takes from ESP-IDF: status codes, handles, hosts and build constants.

use vstd::prelude::*;

verus! {

/// The status code of a call that succeeded.
pub const ESP_OK: i32 = 0;

/// A call that failed, by its status code.
#[derive(Copy, Clone, Debug, PartialEq, Eq, Hash, Structural)]
pub struct EspError {
    pub code: i32,
}

/// The outcome that a status code stands for.
pub open spec fn esp_result(status: i32) -> Result<(), EspError> {
    if status == ESP_OK {
        Ok(())
    } else {
        Err(EspError { code: status })
    }
}

impl EspError {
    /// An error never holds the code of a success.
    pub open spec fn wf(self) -> bool {
        self.code != ESP_OK
    }

    /// The status code of the failed call.
    pub fn code(&self) -> (code: i32)
        ensures
            code == self.code,
    {
        self.code
    }
}

/// Turns the status code of a call into a `Result`.
pub fn esp(status: i32) -> (result: Result<(), EspError>)
    ensures
        result == esp_result(status),
        result is Ok <==> status == ESP_OK,
        result is Ok <==> status == 0,
        result matches Err(e) ==> e.wf() && e.code == status,
{
    if status == ESP_OK {
        Ok(())
    } else {
        Err(EspError { code: status })
    }
}

/// The address by which ESP-IDF knows a device that was added to a bus.
#[derive(Copy, Clone, Debug, PartialEq, Eq, Structural)]
pub struct DeviceHandle(pub usize);

/// An SPI controller of the chip.
#[derive(Copy, Clone, Debug, PartialEq, Eq, Structural)]
pub enum SpiHost {
    Spi1,
    Spi2,
    Spi3,
}

/// The constants of the ESP-IDF build that the driver runs on.
#[derive(Copy, Clone, Debug, PartialEq, Eq, Structural)]
pub struct Sdk {
    /// `SOC_SPI_MAXIMUM_BUFFER_SIZE`: the bytes that the controller moves without DMA.
    pub soc_spi_maximum_buffer_size: u32,
    /// `SPICOMMON_BUSFLAG_MASTER`.
    pub spicommon_busflag_master: u32,
    /// `SPI_DEVICE_NO_DUMMY`.
    pub spi_device_no_dummy: u32,
    /// `SPI_TRANS_CS_KEEP_ACTIVE`, or `None` on version 4.3, which cannot keep CS active from
    /// one transmission to the next.
    pub spi_trans_cs_keep_active: Option<u32>,
}

/// The most bytes that a transmission without DMA may have, whatever the chip allows.
///
/// `write_iter` collects this many bytes before it writes them, so it is kept small.
pub const TRANS_LEN_LIMIT: usize = 64;

impl Sdk {
    /// The most bytes that a transmission without DMA has on this chip.
    pub open spec fn spec_trans_len(self) -> int {
        if self.soc_spi_maximum_buffer_size < TRANS_LEN_LIMIT {
            self.soc_spi_maximum_buffer_size as int
        } else {
            TRANS_LEN_LIMIT as int
        }
    }

    /// The most bytes that a transmission without DMA has on this chip.
    pub fn trans_len(&self) -> (len: usize)
        ensures
            len == self.spec_trans_len(),
            len <= TRANS_LEN_LIMIT,
            self.soc_spi_maximum_buffer_size < 64 ==> len == self.soc_spi_maximum_buffer_size,
            self.soc_spi_maximum_buffer_size >= 64 ==> len == 64,
    {
        if (self.soc_spi_maximum_buffer_size as usize) < TRANS_LEN_LIMIT {
            self.soc_spi_maximum_buffer_size as usize
        } else {
            TRANS_LEN_LIMIT
        }
    }
}

/// A status stands for success if and only if it is 0, and otherwise for the error with that code.
pub proof fn law_statuses(status: i32)
    ensures
        esp_result(status) is Ok <==> status == 0,
        esp_result(status) matches Err(e) ==> e.code == status,
{
}

/// The limit without DMA is that of the chip, but never above 64.
pub proof fn law_trans_len(sdk: Sdk)
    ensures
        sdk.spec_trans_len() <= 64,
        sdk.spec_trans_len() <= sdk.soc_spi_maximum_buffer_size,
        sdk.spec_trans_len() == 64 || sdk.spec_trans_len() == sdk.soc_spi_maximum_buffer_size,
{
}

} // verus!
