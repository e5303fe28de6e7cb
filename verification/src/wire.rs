//! What a list of transmissions puts on the wire, byte by byte.

use vstd::prelude::*;

use crate::chunk::{chunks, law_chunk_at, law_chunk_count, Span};
use crate::transmission::{
    closing_transmissions, held_transmissions, Lanes, Link, Transmission,
};

verus! {

/// What happens while one byte is clocked: the offset of the byte that is sent, and the offset of
/// the byte that is filled with what comes in, where there are such bytes.
pub type Beat = (Option<int>, Option<int>);

/// What happens while a transmission is clocked, byte by byte.
pub open spec fn beats(sent: Transmission) -> Seq<Beat> {
    Seq::new(
        (sent.length / 8) as nat,
        |i: int|
            (
                match sent.tx {
                    Some(span) => if i < span.len {
                        Some(span.start + i)
                    } else {
                        None
                    },
                    None => None,
                },
                match sent.rx {
                    Some(span) => if i < span.len && 8 * i < sent.rxlength {
                        Some(span.start + i)
                    } else {
                        None
                    },
                    None => None,
                },
            ),
    )
}

/// What happens while a list of transmissions is clocked, byte by byte.
pub open spec fn wire(sent: Seq<Transmission>) -> Seq<Beat>
    decreases sent.len(),
{
    if sent.len() == 0 {
        seq![]
    } else {
        beats(sent[0]) + wire(sent.drop_first())
    }
}

/// The bytes of both buffers go by in step, from the first one on: byte `i` of a write buffer of
/// `write` bytes is sent while byte `i` of a read buffer of `read` bytes comes in, for as long as
/// the longer one lasts.
pub open spec fn in_step(read: int, write: int) -> Seq<Beat> {
    Seq::new(
        (if read > write {
            read
        } else {
            write
        }) as nat,
        |i: int|
            (
                if i < write {
                    Some(i)
                } else {
                    None
                },
                if i < read {
                    Some(i)
                } else {
                    None
                },
            ),
    )
}

/// Whether transmissions cover the bytes from `start` to `end` in pieces of `size` bytes, the last
/// one with what is left; each of them is clocked for as long as its piece takes, sends it if
/// `sends`, and fills it if `fills`.
pub open spec fn cut(
    sent: Seq<Transmission>,
    sends: bool,
    fills: bool,
    start: int,
    end: int,
    size: int,
) -> bool {
    &&& sent.len() == (end - start + size - 1) / size
    &&& forall|i: int| #![trigger sent[i]]
        0 <= i < sent.len() ==> {
            let at = start + i * size;
            let len = if end - at < size {
                end - at
            } else {
                size
            };
            &&& 0 < len
            &&& sent[i].length == 8 * len
            &&& sent[i].rxlength == if fills {
                8 * len
            } else {
                0
            }
            &&& if sends {
                sent[i].tx is Some && sent[i].tx->0.start == at && sent[i].tx->0.len == len
            } else {
                sent[i].tx is None
            }
            &&& if fills {
                sent[i].rx is Some && sent[i].rx->0.start == at && sent[i].rx->0.len == len
            } else {
                sent[i].rx is None
            }
        }
}

/// The flags of a transmission after which CS stays active, or does not.
pub open spec fn flagged(sent: Transmission, link: Link, kept: bool) -> bool {
    &&& link.cs_keep_active matches Some(flag) ==> sent.flags == if kept {
        flag
    } else {
        0
    }
    &&& link.cs_keep_active is None ==> sent.flags == 0
}

/// Whether transmissions all go to the device of a link, and keep CS active after each of them.
pub open spec fn held(sent: Seq<Transmission>, link: Link) -> bool {
    forall|i: int| #![trigger sent[i]]
        0 <= i < sent.len() ==> sent[i].handle == link.handle && flagged(sent[i], link, true)
}

/// Whether transmissions all go to the device of a link, and keep CS active after each of them
/// but the last.
pub open spec fn closing(sent: Seq<Transmission>, link: Link) -> bool {
    forall|i: int| #![trigger sent[i]]
        0 <= i < sent.len() ==> sent[i].handle == link.handle && flagged(
            sent[i],
            link,
            i + 1 < sent.len(),
        )
}

pub(crate) proof fn lemma_wire_append(a: Seq<Transmission>, b: Seq<Transmission>)
    ensures
        wire(a + b) == wire(a) + wire(b),
    decreases a.len(),
{
    if a.len() == 0 {
        assert(a + b =~= b);
        assert(wire(a) + wire(b) =~= wire(b));
    } else {
        lemma_wire_append(a.drop_first(), b);
        assert((a + b).drop_first() =~= a.drop_first() + b);
        assert(wire(a + b) =~= wire(a) + wire(b));
    }
}

/// Pieces that are clocked one after the other pass by byte for byte.
pub(crate) proof fn lemma_wire_cut(
    sent: Seq<Transmission>,
    sends: bool,
    fills: bool,
    start: int,
    end: int,
    size: int,
)
    requires
        0 <= start <= end,
        0 < size,
        cut(sent, sends, fills, start, end, size),
    ensures
        wire(sent) == Seq::new(
            (end - start) as nat,
            |i: int|
                (
                    if sends {
                        Some(start + i)
                    } else {
                        None
                    },
                    if fills {
                        Some(start + i)
                    } else {
                        None
                    },
                ),
        ),
    decreases end - start,
{
    let whole = Seq::new(
        (end - start) as nat,
        |i: int|
            (
                if sends {
                    Some(start + i)
                } else {
                    None
                },
                if fills {
                    Some(start + i)
                } else {
                    None
                },
            ),
    );
    if start == end {
        assert((size - 1) / size == 0) by (nonlinear_arith)
            requires
                0 < size,
        ;
        assert(wire(sent) =~= whole);
    } else {
        let len = if end - start < size {
            end - start
        } else {
            size
        };
        let rest = sent.drop_first();
        if len == size {
            assert((end - start + size - 1) / size == (end - (start + size) + size - 1) / size + 1)
                by (nonlinear_arith)
                requires
                    0 < size,
                    start + size <= end,
            ;
            assert((end - (start + size) + size - 1) / size >= 0) by (nonlinear_arith)
                requires
                    0 < size,
                    start + size <= end,
            ;
        } else {
            assert((end - start + size - 1) / size == 1) by (nonlinear_arith)
                requires
                    0 < end - start < size,
            ;
            assert((size - 1) / size == 0) by (nonlinear_arith)
                requires
                    0 < size,
            ;
        }
        assert(0 * size == 0);
        assert forall|i: int| #![trigger rest[i]] 0 <= i < rest.len() implies {
            let at = start + len + i * size;
            let piece = if end - at < size {
                end - at
            } else {
                size
            };
            &&& 0 < piece
            &&& rest[i].length == 8 * piece
            &&& rest[i].rxlength == if fills {
                8 * piece
            } else {
                0
            }
            &&& if sends {
                rest[i].tx is Some && rest[i].tx->0.start == at && rest[i].tx->0.len == piece
            } else {
                rest[i].tx is None
            }
            &&& if fills {
                rest[i].rx is Some && rest[i].rx->0.start == at && rest[i].rx->0.len == piece
            } else {
                rest[i].rx is None
            }
        } by {
            assert(rest[i] == sent[i + 1]);
            assert((i + 1) * size == i * size + size) by (nonlinear_arith);
        }
        assert(cut(rest, sends, fills, start + len, end, size));
        lemma_wire_cut(rest, sends, fills, start + len, end, size);
        assert(beats(sent[0]).len() == len);
        assert(wire(sent) =~= whole);
    }
}

/// The transmissions of a part of the buffers that CS stays active after.
pub(crate) proof fn lemma_held_cut(link: Link, lanes: Lanes, start: int, end: int, size: int)
    requires
        0 <= start <= end <= usize::MAX,
        0 < size,
        size * 8 <= usize::MAX,
    ensures
        ({
            let sent = held_transmissions(link, lanes, chunks(start, end, size));
            &&& cut(sent, lanes != Lanes::Read, lanes != Lanes::Write, start, end, size)
            &&& held(sent, link)
        }),
{
    let spans = chunks(start, end, size);
    let sent = held_transmissions(link, lanes, spans);
    law_chunk_count(start, end, size);
    assert forall|i: int| #![trigger sent[i]] 0 <= i < sent.len() implies chunk_is(
        spans[i],
        start + i * size,
        end,
        size,
    ) by {
        law_chunk_at(start, end, size, i);
    }
}

/// The transmissions of a part of the buffers, of which the last one lets go of CS.
pub(crate) proof fn lemma_closing_cut(link: Link, lanes: Lanes, start: int, end: int, size: int)
    requires
        0 <= start <= end <= usize::MAX,
        0 < size,
        size * 8 <= usize::MAX,
    ensures
        ({
            let sent = closing_transmissions(link, lanes, chunks(start, end, size));
            &&& cut(sent, lanes != Lanes::Read, lanes != Lanes::Write, start, end, size)
            &&& closing(sent, link)
        }),
{
    let spans = chunks(start, end, size);
    let sent = closing_transmissions(link, lanes, spans);
    law_chunk_count(start, end, size);
    assert forall|i: int| #![trigger sent[i]] 0 <= i < sent.len() implies chunk_is(
        spans[i],
        start + i * size,
        end,
        size,
    ) by {
        law_chunk_at(start, end, size, i);
    }
}

spec fn chunk_is(span: Span, at: int, end: int, size: int) -> bool {
    &&& at < end
    &&& span.start == at
    &&& span.len == if end - at < size {
        end - at
    } else {
        size
    }
}

} // verus!
