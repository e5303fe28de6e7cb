//! The DMA channel of a bus, and how much it moves at once.

use vstd::prelude::*;

use crate::bus::MAX_TRANSFER_SIZE;

verus! {

/// The DMA channel of a bus. With one goes the number of bytes that a transmission may have.
#[derive(Copy, Clone, Debug, PartialEq, Eq, Structural)]
pub enum Dma {
    Disabled,
    Channel1(usize),
    Channel2(usize),
    Auto(usize),
}

/// The number by which ESP-IDF knows a channel.
pub open spec fn dma_channel(dma: Dma) -> u32 {
    match dma {
        Dma::Disabled => 0,
        Dma::Channel1(_) => 1,
        Dma::Channel2(_) => 2,
        Dma::Auto(_) => 3,
    }
}

impl From<Dma> for u32 {
    fn from(dma: Dma) -> (channel: u32)
        ensures
            dma is Disabled ==> channel == 0,
            dma is Channel1 ==> channel == 1,
            dma is Channel2 ==> channel == 2,
            dma is Auto ==> channel == 3,
    {
        match dma {
            Dma::Channel1(_) => 1,
            Dma::Channel2(_) => 2,
            Dma::Auto(_) => 3,
            _ => 0,
        }
    }
}

impl vstd::std_specs::convert::FromSpecImpl<Dma> for u32 {
    open spec fn obeys_from_spec() -> bool {
        true
    }

    open spec fn from_spec(dma: Dma) -> u32 {
        dma_channel(dma)
    }
}

impl Dma {
    /// The bytes that a transmission is asked to have at most: those that the channel came with,
    /// or `trans_len` without DMA.
    pub open spec fn size(self, trans_len: int) -> int {
        match self {
            Dma::Disabled => trans_len,
            Dma::Channel1(size) => size as int,
            Dma::Channel2(size) => size as int,
            Dma::Auto(size) => size as int,
        }
    }

    /// Whether the size is one that the controller can work with.
    pub open spec fn valid(self, trans_len: int) -> bool {
        self.size(trans_len) % 4 == 0
    }

    /// The bytes that a transmission has at most.
    pub open spec fn transfer_size(self, trans_len: int) -> int {
        if self.size(trans_len) > MAX_TRANSFER_SIZE {
            MAX_TRANSFER_SIZE as int
        } else {
            self.size(trans_len)
        }
    }

    fn asked_size(&self, trans_len: usize) -> (size: usize)
        ensures
            size == self.size(trans_len as int),
    {
        match self {
            Dma::Disabled => trans_len,
            Dma::Channel1(size) => *size,
            Dma::Channel2(size) => *size,
            Dma::Auto(size) => *size,
        }
    }

    /// Whether the size is one that the controller can work with: a multiple of 4.
    pub fn is_valid(&self, trans_len: usize) -> (valid: bool)
        ensures
            valid == self.valid(trans_len as int),
            self is Disabled ==> valid == (trans_len % 4 == 0),
            *self matches Dma::Channel1(size) ==> valid == (size % 4 == 0),
            *self matches Dma::Channel2(size) ==> valid == (size % 4 == 0),
            *self matches Dma::Auto(size) ==> valid == (size % 4 == 0),
    {
        self.asked_size(trans_len) % 4 == 0
    }

    /// The bytes that a transmission has at most; `trans_len` is the limit without DMA.
    ///
    /// The size must be a multiple of 4.
    pub fn max_transfer_size(&self, trans_len: usize) -> (size: usize)
        requires
            self.valid(trans_len as int),
        ensures
            size == self.transfer_size(trans_len as int),
            size <= MAX_TRANSFER_SIZE,
            size <= 4096,
            size % 4 == 0,
            self is Disabled ==> size <= trans_len && (size == 4096 || size == trans_len),
            *self matches Dma::Channel1(asked) ==> size <= asked && (size == 4096 || size == asked),
            *self matches Dma::Channel2(asked) ==> size <= asked && (size == 4096 || size == asked),
            *self matches Dma::Auto(asked) ==> size <= asked && (size == 4096 || size == asked),
    {
        let max_transfer_size: usize = self.asked_size(trans_len);
        if max_transfer_size > MAX_TRANSFER_SIZE {
            MAX_TRANSFER_SIZE
        } else {
            max_transfer_size
        }
    }
}

/// The channels have the numbers from 1 to 3, whatever size goes with them, and no channel has 0.
pub proof fn law_dma_channels(size: usize)
    ensures
        dma_channel(Dma::Disabled) == 0,
        dma_channel(Dma::Channel1(size)) == 1,
        dma_channel(Dma::Channel2(size)) == 2,
        dma_channel(Dma::Auto(size)) == 3,
{
}

/// A size is valid if and only if it is a multiple of 4; with a channel it is the one that the
/// channel came with, and without DMA the limit of the chip.
pub proof fn law_dma_valid(size: usize, trans_len: int)
    ensures
        Dma::Disabled.valid(trans_len) <==> trans_len % 4 == 0,
        Dma::Channel1(size).valid(trans_len) <==> size % 4 == 0,
        Dma::Channel2(size).valid(trans_len) <==> size % 4 == 0,
        Dma::Auto(size).valid(trans_len) <==> size % 4 == 0,
{
}

/// A transmission has as many bytes at most as the size says, but never more than 4096.
pub proof fn law_dma_transfer_size(size: usize, trans_len: int)
    ensures
        Dma::Disabled.transfer_size(trans_len) == if trans_len > 4096 {
            4096
        } else {
            trans_len
        },
        forall|dma: Dma|
            dma == Dma::Channel1(size) || dma == Dma::Channel2(size) || dma == Dma::Auto(size)
                ==> #[trigger] dma.transfer_size(trans_len) == if size > 4096 {
                4096
            } else {
                size as int
            },
{
}

} // verus!
