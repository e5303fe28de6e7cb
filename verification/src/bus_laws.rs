//! What reads, writes and transfers on the bus promise as a whole.

use vstd::prelude::*;

use crate::bus::{bus_step, transfer_transmissions, BusAction};
use crate::chunk::{
    chunks, gather, law_chunk_at, lemma_gather_chunks, lemma_scatter_chunks, scatter, Span,
};
use crate::sys::{EspError, ESP_OK};
use crate::transmission::{
    held_transmissions, rx_spans, transmission_flags, tx_spans, Lanes, Link, Transmission,
};

verus! {

/// A whole run of a call on the bus: the transmissions that it hands out, in order, and what it
/// returns, when `status` is the status of its first step and `statuses` are those of its
/// transmissions. Without enough of them the run has no end.
pub open spec fn bus_run(pending: Seq<Transmission>, status: i32, statuses: Seq<i32>) -> (
    Seq<Transmission>,
    Option<Result<(), EspError>>,
)
    decreases statuses.len(),
{
    let (rest, action) = bus_step(pending, status);
    match action {
        BusAction::Return(result) => (seq![], Some(result)),
        BusAction::Transmit(sent) => if statuses.len() == 0 {
            (seq![sent], None)
        } else {
            let (later, result) = bus_run(rest, statuses[0], statuses.drop_first());
            (seq![sent] + later, result)
        },
    }
}

/// When every transmission succeeds, a call performs all of them in order and succeeds.
pub proof fn law_run_succeeds(pending: Seq<Transmission>, statuses: Seq<i32>)
    requires
        statuses.len() == pending.len(),
        forall|i: int| 0 <= i < statuses.len() ==> statuses[i] == ESP_OK,
    ensures
        bus_run(pending, ESP_OK, statuses) == (pending, Some(Ok::<(), EspError>(()))),
    decreases pending.len(),
{
    if pending.len() == 0 {
        assert(pending =~= seq![]);
    } else {
        law_run_succeeds(pending.drop_first(), statuses.drop_first());
        assert(seq![pending[0]] + pending.drop_first() =~= pending);
    }
}

/// When a transmission fails, a call performs no other one after it, and returns its error.
pub proof fn law_run_stops_at_failure(pending: Seq<Transmission>, statuses: Seq<i32>, k: int)
    requires
        0 <= k < pending.len(),
        k < statuses.len(),
        forall|i: int| 0 <= i < k ==> statuses[i] == ESP_OK,
        statuses[k] != ESP_OK,
    ensures
        bus_run(pending, ESP_OK, statuses) == (
            pending.take(k + 1),
            Some(Err::<(), EspError>(EspError { code: statuses[k] })),
        ),
    decreases pending.len(),
{
    if k == 0 {
        reveal_with_fuel(bus_run, 2);
        assert(pending.take(1) =~= seq![pending[0]] + seq![]);
    } else {
        law_run_stops_at_failure(pending.drop_first(), statuses.drop_first(), k - 1);
        assert(pending.take(k + 1) =~= seq![pending[0]] + pending.drop_first().take(k));
    }
}

/// How many bits a list of transmissions clocks.
pub open spec fn clocked(sent: Seq<Transmission>) -> int
    decreases sent.len(),
{
    if sent.len() == 0 {
        0
    } else {
        sent[0].length + clocked(sent.drop_first())
    }
}

proof fn lemma_clocked_append(a: Seq<Transmission>, b: Seq<Transmission>)
    ensures
        clocked(a + b) == clocked(a) + clocked(b),
    decreases a.len(),
{
    if a.len() == 0 {
        assert(a + b =~= b);
    } else {
        lemma_clocked_append(a.drop_first(), b);
        assert((a + b).drop_first() =~= a.drop_first() + b);
    }
}

pub(crate) proof fn lemma_spans_append(a: Seq<Transmission>, b: Seq<Transmission>)
    ensures
        tx_spans(a + b) == tx_spans(a) + tx_spans(b),
        rx_spans(a + b) == rx_spans(a) + rx_spans(b),
    decreases a.len(),
{
    if a.len() == 0 {
        assert(a + b =~= b);
    } else {
        lemma_spans_append(a.drop_first(), b);
        assert((a + b).drop_first() =~= a.drop_first() + b);
        assert(tx_spans(a + b) =~= tx_spans(a) + tx_spans(b));
        assert(rx_spans(a + b) =~= rx_spans(a) + rx_spans(b));
    }
}

proof fn lemma_held_spans(link: Link, lanes: Lanes, spans: Seq<Span>)
    ensures
        tx_spans(held_transmissions(link, lanes, spans)) == match lanes {
            Lanes::Read => seq![],
            _ => spans,
        },
        rx_spans(held_transmissions(link, lanes, spans)) == match lanes {
            Lanes::Write => seq![],
            _ => spans,
        },
    decreases spans.len(),
{
    let sent = held_transmissions(link, lanes, spans);
    if spans.len() == 0 {
        assert(spans =~= seq![]);
    } else {
        let rest = spans.drop_first();
        lemma_held_spans(link, lanes, rest);
        assert(sent.drop_first() =~= held_transmissions(link, lanes, rest));
        assert(seq![spans[0]] + rest =~= spans);
    }
}

proof fn lemma_clocked_chunks(link: Link, lanes: Lanes, start: int, end: int, size: int)
    requires
        0 <= start <= end <= usize::MAX,
        0 < size,
        size * 8 <= usize::MAX,
    ensures
        clocked(held_transmissions(link, lanes, chunks(start, end, size))) == 8 * (end - start),
    decreases end - start,
{
    if start < end {
        let len = if end - start < size {
            end - start
        } else {
            size
        };
        let sent = held_transmissions(link, lanes, chunks(start, end, size));
        lemma_clocked_chunks(link, lanes, start + len, end, size);
        assert(chunks(start, end, size).drop_first() =~= chunks(start + len, end, size));
        assert(sent.drop_first() =~= held_transmissions(
            link,
            lanes,
            chunks(start + len, end, size),
        ));
    }
}

pub(crate) proof fn lemma_gather_append(words: Seq<u8>, a: Seq<Span>, b: Seq<Span>)
    ensures
        gather(words, a + b) == gather(words, a) + gather(words, b),
    decreases a.len(),
{
    if a.len() == 0 {
        assert(a + b =~= b);
        assert(gather(words, a) + gather(words, b) =~= gather(words, b));
    } else {
        lemma_gather_append(words, a.drop_first(), b);
        assert((a + b).drop_first() =~= a.drop_first() + b);
        assert(gather(words, a + b) =~= gather(words, a) + gather(words, b));
    }
}

proof fn lemma_scatter_append(
    words: Seq<u8>,
    a: Seq<Span>,
    b: Seq<Span>,
    x: Seq<Seq<u8>>,
    y: Seq<Seq<u8>>,
)
    requires
        x.len() == a.len(),
    ensures
        scatter(words, a + b, x + y) == scatter(scatter(words, a, x), b, y),
    decreases a.len(),
{
    if a.len() == 0 {
        assert(a + b =~= b);
        assert(x + y =~= y);
    } else {
        let span = a[0];
        let filled = words.subrange(0, span.start as int) + x[0] + words.subrange(
            span.start + span.len,
            words.len() as int,
        );
        lemma_scatter_append(filled, a.drop_first(), b, x.drop_first(), y);
        assert((a + b).drop_first() =~= a.drop_first() + b);
        assert((x + y).drop_first() =~= x.drop_first() + y);
    }
}

/// Whether each reply has as many bytes as the span that it fills.
pub open spec fn replies_fit(spans: Seq<Span>, replies: Seq<Seq<u8>>) -> bool {
    &&& replies.len() == spans.len()
    &&& forall|i: int| 0 <= i < replies.len() ==> (#[trigger] replies[i]).len() == spans[i].len
}

/// A write sends the whole buffer, in order, and fills nothing.
pub proof fn law_write_sends_all(link: Link, words: Seq<u8>, size: int)
    requires
        words.len() <= usize::MAX,
        0 < size,
    ensures
        ({
            let sent = held_transmissions(link, Lanes::Write, chunks(0, words.len() as int, size));
            &&& gather(words, tx_spans(sent)) == words
            &&& rx_spans(sent) == Seq::<Span>::empty()
        }),
{
    let spans = chunks(0, words.len() as int, size);
    lemma_held_spans(link, Lanes::Write, spans);
    lemma_gather_chunks(words, 0, words.len() as int, size);
    assert(words.subrange(0, words.len() as int) =~= words);
}

/// A read fills the whole buffer with what comes in, in order, and sends nothing.
pub proof fn law_read_fills_all(link: Link, words: Seq<u8>, size: int, replies: Seq<Seq<u8>>)
    requires
        words.len() <= usize::MAX,
        0 < size,
        replies_fit(chunks(0, words.len() as int, size), replies),
    ensures
        ({
            let sent = held_transmissions(link, Lanes::Read, chunks(0, words.len() as int, size));
            &&& scatter(words, rx_spans(sent), replies) == replies.flatten()
            &&& replies.flatten().len() == words.len()
            &&& tx_spans(sent) == Seq::<Span>::empty()
        }),
{
    let len = words.len() as int;
    let spans = chunks(0, len, size);
    lemma_held_spans(link, Lanes::Read, spans);
    lemma_scatter_chunks(words, 0, len, size, replies);
    lemma_flatten_len(0, len, size, replies);
    assert(words.subrange(0, 0) + replies.flatten() + words.subrange(len, len)
        =~= replies.flatten());
}

pub(crate) proof fn lemma_flatten_len(start: int, end: int, size: int, replies: Seq<Seq<u8>>)
    requires
        0 <= start <= end <= usize::MAX,
        0 < size,
        replies_fit(chunks(start, end, size), replies),
    ensures
        replies.flatten().len() == end - start,
    decreases end - start,
{
    if start < end {
        let all = chunks(start, end, size);
        let len = if end - start < size {
            end - start
        } else {
            size
        };
        let rest = chunks(start + len, end, size);
        let tail = replies.drop_first();
        assert(all.drop_first() =~= rest);
        assert forall|i: int| 0 <= i < tail.len() implies (#[trigger] tail[i]).len()
            == rest[i].len by {
            assert(tail[i] == replies[i + 1]);
            assert(rest[i] == all[i + 1]);
        }
        lemma_flatten_len(start + len, end, size, tail);
        assert(replies.flatten() == replies[0] + tail.flatten());
    }
}

/// An in-place transfer sends the whole buffer, fills the whole buffer, and no transmission
/// fills a part that a later one still has to send.
pub proof fn law_in_place_exchanges_all(
    link: Link,
    words: Seq<u8>,
    size: int,
    replies: Seq<Seq<u8>>,
)
    requires
        words.len() <= usize::MAX,
        0 < size,
        replies_fit(chunks(0, words.len() as int, size), replies),
    ensures
        ({
            let sent = held_transmissions(link, Lanes::Both, chunks(0, words.len() as int, size));
            &&& gather(words, tx_spans(sent)) == words
            &&& scatter(words, rx_spans(sent), replies) == replies.flatten()
            &&& replies.flatten().len() == words.len()
            &&& forall|i: int, j: int|
                0 <= i < j < sent.len() ==> (#[trigger] sent[i]).rx->0.start + sent[i].rx->0.len
                    <= (#[trigger] sent[j]).tx->0.start
        }),
{
    let len = words.len() as int;
    let spans = chunks(0, len, size);
    let sent = held_transmissions(link, Lanes::Both, spans);
    lemma_held_spans(link, Lanes::Both, spans);
    lemma_gather_chunks(words, 0, len, size);
    assert(words.subrange(0, len) =~= words);
    lemma_scatter_chunks(words, 0, len, size, replies);
    lemma_flatten_len(0, len, size, replies);
    assert(words.subrange(0, 0) + replies.flatten() + words.subrange(len, len)
        =~= replies.flatten());
    assert forall|i: int, j: int| 0 <= i < j < sent.len() implies (#[trigger] sent[i]).rx->0.start
        + sent[i].rx->0.len <= (#[trigger] sent[j]).tx->0.start by {
        law_chunk_at(0, len, size, i);
        law_chunk_at(0, len, size, j);
        assert(i * size + size <= j * size) by (nonlinear_arith)
            requires
                0 <= i < j,
                0 < size,
        ;
    }
}

/// A transfer sends the whole write buffer, fills the whole read buffer, each in order, and runs
/// for as many bytes as the longer one has.
pub proof fn law_transfer_exchanges_all(
    link: Link,
    read: Seq<u8>,
    write: Seq<u8>,
    size: int,
    replies: Seq<Seq<u8>>,
)
    requires
        read.len() <= usize::MAX,
        write.len() <= usize::MAX,
        0 < size,
        size * 8 <= usize::MAX,
        replies_fit(
            rx_spans(
                transfer_transmissions(link, read.len() as int, write.len() as int, size),
            ),
            replies,
        ),
    ensures
        ({
            let sent = transfer_transmissions(link, read.len() as int, write.len() as int, size);
            &&& gather(write, tx_spans(sent)) == write
            &&& scatter(read, rx_spans(sent), replies) == replies.flatten()
            &&& replies.flatten().len() == read.len()
            &&& clocked(sent) == 8 * (if read.len() > write.len() {
                read.len()
            } else {
                write.len()
            })
        }),
{
    let r = read.len() as int;
    let w = write.len() as int;
    let common = if r > w {
        w
    } else {
        r
    };
    let longer = if r > w {
        r
    } else {
        w
    };
    let tail_lanes = if r > w {
        Lanes::Read
    } else {
        Lanes::Write
    };
    let front = chunks(0, common, size);
    let back = chunks(common, longer, size);
    let a = held_transmissions(link, Lanes::Both, front);
    let b = held_transmissions(link, tail_lanes, back);
    assert(transfer_transmissions(link, r, w, size) == a + b);
    lemma_spans_append(a, b);
    lemma_held_spans(link, Lanes::Both, front);
    lemma_held_spans(link, tail_lanes, back);
    lemma_clocked_append(a, b);
    lemma_clocked_chunks(link, Lanes::Both, 0, common, size);
    lemma_clocked_chunks(link, tail_lanes, common, longer, size);

    // What is sent.
    lemma_gather_chunks(write, 0, common, size);
    if r > w {
        assert(front + Seq::<Span>::empty() =~= front);
        assert(write.subrange(0, w) =~= write);
    } else {
        lemma_gather_chunks(write, common, longer, size);
        lemma_gather_append(write, front, back);
        assert(write.subrange(0, r) + write.subrange(r, w) =~= write);
    }

    // What is received.
    if r > w {
        let x = replies.take(front.len() as int);
        let y = replies.skip(front.len() as int);
        assert(x + y =~= replies);
        assert forall|i: int| 0 <= i < x.len() implies (#[trigger] x[i]).len() == front[i].len by {
            assert(x[i] == replies[i]);
            assert((front + back)[i] == front[i]);
        }
        assert forall|i: int| 0 <= i < y.len() implies (#[trigger] y[i]).len() == back[i].len by {
            assert(y[i] == replies[i + front.len()]);
            assert((front + back)[i + front.len()] == back[i]);
        }
        lemma_scatter_append(read, front, back, x, y);
        lemma_scatter_chunks(read, 0, w, size, x);
        lemma_flatten_len(0, w, size, x);
        let mid = scatter(read, front, x);
        lemma_scatter_chunks(mid, w, r, size, y);
        lemma_flatten_len(w, r, size, y);
        vstd::seq_lib::lemma_flatten_concat(x, y);
        assert(mid.subrange(0, w) =~= x.flatten());
        assert(mid.subrange(0, w) + y.flatten() + mid.subrange(r, r) =~= x.flatten()
            + y.flatten());
    } else {
        assert(front + Seq::<Span>::empty() =~= front);
        lemma_scatter_chunks(read, 0, r, size, replies);
        lemma_flatten_len(0, r, size, replies);
        assert(read.subrange(0, 0) + replies.flatten() + read.subrange(r, r)
            =~= replies.flatten());
    }
}

/// No transmission of a call on the bus is empty or longer than the bus allows, and each of them
/// keeps CS active.
pub proof fn law_transmissions_bounded(link: Link, lanes: Lanes, start: int, end: int, size: int)
    requires
        0 <= start <= end <= usize::MAX,
        0 < size,
        size * 8 <= usize::MAX,
    ensures
        ({
            let sent = held_transmissions(link, lanes, chunks(start, end, size));
            forall|i: int|
                0 <= i < sent.len() ==> {
                    &&& 0 < (#[trigger] sent[i]).length <= 8 * size
                    &&& sent[i].rxlength == if lanes == Lanes::Write {
                        0
                    } else {
                        sent[i].length
                    }
                    &&& sent[i].flags == transmission_flags(link, true)
                    &&& sent[i].handle == link.handle
                }
        }),
{
    let sent = held_transmissions(link, lanes, chunks(start, end, size));
    assert forall|i: int| 0 <= i < sent.len() implies {
        &&& 0 < (#[trigger] sent[i]).length <= 8 * size
        &&& sent[i].rxlength == if lanes == Lanes::Write {
            0
        } else {
            sent[i].length
        }
        &&& sent[i].flags == transmission_flags(link, true)
        &&& sent[i].handle == link.handle
    } by {
        law_chunk_at(start, end, size, i);
    }
}

} // verus!
