//! One transmission: what a single call of the controller is asked to move.

use vstd::prelude::*;

use crate::chunk::{chunks, Span};
use crate::sys::DeviceHandle;

verus! {

/// Where the transmissions of a device go, and how they say that CS is to stay active.
#[derive(Copy, Clone, Debug, PartialEq, Eq, Structural)]
pub struct Link {
    pub handle: DeviceHandle,
    /// The flag that keeps CS active, where ESP-IDF has one.
    pub cs_keep_active: Option<u32>,
}

/// A full duplex transmission, as the controller is handed it.
#[derive(Copy, Clone, Debug, PartialEq, Eq, Structural)]
pub struct Transmission {
    /// The device that is addressed.
    pub handle: DeviceHandle,
    pub flags: u32,
    /// The part of the write buffer that is sent, if any.
    pub tx: Option<Span>,
    /// The part of the read buffer that is filled, if any.
    pub rx: Option<Span>,
    /// How many bits are clocked.
    pub length: usize,
    /// How many bits are received.
    pub rxlength: usize,
}

/// Which of the two buffers a transmission touches.
#[derive(Copy, Clone, Debug, PartialEq, Eq, Structural)]
pub enum Lanes {
    Read,
    Write,
    Both,
}

/// The flags of a transmission.
pub open spec fn transmission_flags(link: Link, keep_cs_active: bool) -> u32 {
    match link.cs_keep_active {
        Some(flag) => if keep_cs_active {
            flag
        } else {
            0
        },
        None => 0,
    }
}

/// The transmission that clocks `transaction_length` bytes and receives `rx_length` of them.
pub open spec fn transmission(
    link: Link,
    read: Option<Span>,
    write: Option<Span>,
    transaction_length: int,
    rx_length: int,
    keep_cs_active: bool,
) -> Transmission {
    Transmission {
        handle: link.handle,
        flags: transmission_flags(link, keep_cs_active),
        tx: write,
        rx: read,
        length: (transaction_length * 8) as usize,
        rxlength: (rx_length * 8) as usize,
    }
}

/// The transmission that moves one piece of the buffers.
pub open spec fn chunk_transmission(
    link: Link,
    lanes: Lanes,
    span: Span,
    keep_cs_active: bool,
) -> Transmission {
    let len = span.len as int;
    match lanes {
        Lanes::Read => transmission(link, Some(span), None, len, len, keep_cs_active),
        Lanes::Write => transmission(link, None, Some(span), len, 0, keep_cs_active),
        Lanes::Both => transmission(link, Some(span), Some(span), len, len, keep_cs_active),
    }
}

/// The transmissions that move a list of pieces, CS staying active after each of them.
pub open spec fn held_transmissions(link: Link, lanes: Lanes, spans: Seq<Span>) -> Seq<
    Transmission,
> {
    Seq::new(spans.len(), |i: int| chunk_transmission(link, lanes, spans[i], true))
}

/// The transmissions that move a list of pieces, CS staying active until the last of them.
pub open spec fn closing_transmissions(link: Link, lanes: Lanes, spans: Seq<Span>) -> Seq<
    Transmission,
> {
    Seq::new(
        spans.len(),
        |i: int| chunk_transmission(link, lanes, spans[i], i + 1 < spans.len()),
    )
}

/// The spans of the write buffer that a list of transmissions sends.
pub open spec fn tx_spans(sent: Seq<Transmission>) -> Seq<Span>
    decreases sent.len(),
{
    if sent.len() == 0 {
        seq![]
    } else {
        match sent[0].tx {
            Some(span) => seq![span] + tx_spans(sent.drop_first()),
            None => tx_spans(sent.drop_first()),
        }
    }
}

/// The spans of the read buffer that a list of transmissions fills.
pub open spec fn rx_spans(sent: Seq<Transmission>) -> Seq<Span>
    decreases sent.len(),
{
    if sent.len() == 0 {
        seq![]
    } else {
        match sent[0].rx {
            Some(span) => seq![span] + rx_spans(sent.drop_first()),
            None => rx_spans(sent.drop_first()),
        }
    }
}

/// Describes a transmission of `transaction_length` bytes, `rx_length` of which are received.
pub fn polling_transmit(
    link: Link,
    read: Option<Span>,
    write: Option<Span>,
    transaction_length: usize,
    rx_length: usize,
    keep_cs_active: bool,
) -> (sent: Transmission)
    requires
        transaction_length * 8 <= usize::MAX,
        rx_length * 8 <= usize::MAX,
    ensures
        sent == transmission(
            link,
            read,
            write,
            transaction_length as int,
            rx_length as int,
            keep_cs_active,
        ),
        sent.handle == link.handle,
        sent.tx == write,
        sent.rx == read,
        sent.length == 8 * transaction_length,
        sent.rxlength == 8 * rx_length,
        keep_cs_active && link.cs_keep_active is Some ==> sent.flags == link.cs_keep_active->0,
        !keep_cs_active || link.cs_keep_active is None ==> sent.flags == 0,
{
    let flags: u32 = match link.cs_keep_active {
        Some(flag) => if keep_cs_active {
            flag
        } else {
            0
        },
        None => 0,
    };
    Transmission {
        handle: link.handle,
        flags,
        tx: write,
        rx: read,
        length: transaction_length * 8,
        rxlength: rx_length * 8,
    }
}

/// Describes the transmission of one piece of the buffers.
pub(crate) fn transmit_chunk(link: Link, lanes: Lanes, span: Span, keep_cs_active: bool) -> (sent:
    Transmission)
    requires
        span.len * 8 <= usize::MAX,
    ensures
        sent == chunk_transmission(link, lanes, span, keep_cs_active),
        sent.handle == link.handle,
        sent.tx == if lanes == Lanes::Read {
            None
        } else {
            Some(span)
        },
        sent.rx == if lanes == Lanes::Write {
            None
        } else {
            Some(span)
        },
        sent.length == 8 * span.len,
        sent.rxlength == if lanes == Lanes::Write {
            0
        } else {
            8 * span.len
        },
        keep_cs_active && link.cs_keep_active is Some ==> sent.flags == link.cs_keep_active->0,
        !keep_cs_active || link.cs_keep_active is None ==> sent.flags == 0,
{
    match lanes {
        Lanes::Read => polling_transmit(
            link,
            Some(span),
            None,
            span.len,
            span.len,
            keep_cs_active,
        ),
        Lanes::Write => polling_transmit(link, None, Some(span), span.len, 0, keep_cs_active),
        Lanes::Both => polling_transmit(
            link,
            Some(span),
            Some(span),
            span.len,
            span.len,
            keep_cs_active,
        ),
    }
}

/// The first transmission of a part of the buffers moves its first piece; the others are those
/// of the part behind that piece.
pub(crate) proof fn lemma_held_first(link: Link, lanes: Lanes, start: int, end: int, size: int)
    requires
        0 <= start < end <= usize::MAX,
        0 < size,
    ensures
        ({
            let len = if end - start < size {
                end - start
            } else {
                size
            };
            let span = Span { start: start as usize, len: len as usize };
            held_transmissions(link, lanes, chunks(start, end, size)) == seq![
                chunk_transmission(link, lanes, span, true),
            ] + held_transmissions(link, lanes, chunks(start + len, end, size))
        }),
{
    let len = if end - start < size {
        end - start
    } else {
        size
    };
    let span = Span { start: start as usize, len: len as usize };
    let rest = chunks(start + len, end, size);
    assert(chunks(start, end, size) == seq![span] + rest);
    assert(held_transmissions(link, lanes, seq![span] + rest) =~= seq![
        chunk_transmission(link, lanes, span, true),
    ] + held_transmissions(link, lanes, rest));
}

} // verus!
