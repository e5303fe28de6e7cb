//! How a buffer is cut into pieces that one transmission can carry.

use vstd::prelude::*;

verus! {

/// A part of a buffer, from `start` on, `len` bytes long.
#[derive(Copy, Clone, Debug, PartialEq, Eq, Structural)]
pub struct Span {
    pub start: usize,
    pub len: usize,
}

/// The bytes of a buffer that a span covers.
pub open spec fn span_bytes(words: Seq<u8>, span: Span) -> Seq<u8> {
    words.subrange(span.start as int, span.start + span.len)
}

/// The buffer between `start` and `end` cut into pieces of `size` bytes, in order; the last one
/// holds what is left.
pub open spec fn chunks(start: int, end: int, size: int) -> Seq<Span>
    decreases end - start,
{
    if start >= end || size <= 0 {
        seq![]
    } else {
        let len = if end - start < size {
            end - start
        } else {
            size
        };
        seq![Span { start: start as usize, len: len as usize }] + chunks(start + len, end, size)
    }
}

/// The bytes that a list of spans covers, one span after the other.
pub open spec fn gather(words: Seq<u8>, spans: Seq<Span>) -> Seq<u8>
    decreases spans.len(),
{
    if spans.len() == 0 {
        seq![]
    } else {
        span_bytes(words, spans[0]) + gather(words, spans.drop_first())
    }
}

/// A buffer after each span of a list was overwritten with the bytes that came in for it.
pub open spec fn scatter(words: Seq<u8>, spans: Seq<Span>, replies: Seq<Seq<u8>>) -> Seq<u8>
    decreases spans.len(),
{
    if spans.len() == 0 {
        words
    } else {
        let span = spans[0];
        let filled = words.subrange(0, span.start as int) + replies[0] + words.subrange(
            span.start + span.len,
            words.len() as int,
        );
        scatter(filled, spans.drop_first(), replies.drop_first())
    }
}

/// Piece `i` begins `i * size` bytes in, and every piece but
/// the last has `size` bytes.
pub proof fn law_chunk_at(start: int, end: int, size: int, i: int)
    requires
        0 <= start <= end <= usize::MAX,
        0 < size,
        0 <= i < chunks(start, end, size).len(),
    ensures
        chunks(start, end, size)[i].start == start + i * size,
        start + i * size < end,
        chunks(start, end, size)[i].len == if end - (start + i * size) < size {
            end - (start + i * size)
        } else {
            size
        },
        i + 1 < chunks(start, end, size).len() ==> chunks(start, end, size)[i].len == size,
    decreases end - start,
{
    assert(start < end);
    let len = if end - start < size {
        end - start
    } else {
        size
    };
    let rest = chunks(start + len, end, size);
    assert(chunks(start, end, size) == seq![Span { start: start as usize, len: len as usize }]
        + rest);
    if i > 0 {
        assert(chunks(start, end, size)[i] == rest[i - 1]);
        law_chunk_at(start + len, end, size, i - 1);
        assert(len == size);
        assert((i - 1) * size + size == i * size) by (nonlinear_arith);
    } else {
        assert(0 * size == 0);
    }
}

/// The number of pieces is the length divided by the size, rounded up.
pub proof fn law_chunk_count(start: int, end: int, size: int)
    requires
        start <= end,
        0 < size,
    ensures
        chunks(start, end, size).len() == (end - start + size - 1) / size,
    decreases end - start,
{
    if start < end {
        let len = if end - start < size {
            end - start
        } else {
            size
        };
        law_chunk_count(start + len, end, size);
        if len == size {
            assert((end - start + size - 1) / size == (end - (start + size) + size - 1) / size + 1)
                by (nonlinear_arith)
                requires
                    0 < size,
                    start + size <= end,
            ;
        } else {
            assert((size - 1) / size == 0) by (nonlinear_arith)
                requires
                    0 < size,
            ;
            assert((end - start + size - 1) / size == 1) by (nonlinear_arith)
                requires
                    0 < end - start < size,
            ;
        }
    } else {
        assert((size - 1) / size == 0) by (nonlinear_arith)
            requires
                0 < size,
        ;
    }
}

/// The pieces of a buffer, one after the other, are the buffer: none is left out, and none is
/// there twice.
pub proof fn lemma_gather_chunks(words: Seq<u8>, start: int, end: int, size: int)
    requires
        0 <= start <= end <= words.len() <= usize::MAX,
        0 < size,
    ensures
        gather(words, chunks(start, end, size)) == words.subrange(start, end),
    decreases end - start,
{
    if start < end {
        let len = if end - start < size {
            end - start
        } else {
            size
        };
        let all = chunks(start, end, size);
        assert(all.drop_first() =~= chunks(start + len, end, size));
        lemma_gather_chunks(words, start + len, end, size);
        assert(words.subrange(start, start + len) + words.subrange(start + len, end)
            =~= words.subrange(start, end));
    } else {
        assert(words.subrange(start, end) =~= seq![]);
    }
}

/// When each piece of a buffer is overwritten with as many bytes as it holds, the buffer ends up
/// with those bytes in order, and what lies outside the pieces stays as it was.
pub proof fn lemma_scatter_chunks(
    words: Seq<u8>,
    start: int,
    end: int,
    size: int,
    replies: Seq<Seq<u8>>,
)
    requires
        0 <= start <= end <= words.len() <= usize::MAX,
        0 < size,
        replies.len() == chunks(start, end, size).len(),
        forall|i: int|
            0 <= i < replies.len() ==> (#[trigger] replies[i]).len() == chunks(
                start,
                end,
                size,
            )[i].len,
    ensures
        scatter(words, chunks(start, end, size), replies) == words.subrange(0, start)
            + replies.flatten() + words.subrange(end, words.len() as int),
    decreases end - start,
{
    let all = chunks(start, end, size);
    if start < end {
        let len = if end - start < size {
            end - start
        } else {
            size
        };
        let rest = chunks(start + len, end, size);
        assert(all.drop_first() =~= rest);
        let filled = words.subrange(0, start) + replies[0] + words.subrange(
            start + len,
            words.len() as int,
        );
        let tail = replies.drop_first();
        assert forall|i: int| 0 <= i < tail.len() implies (#[trigger] tail[i]).len()
            == rest[i].len by {
            assert(tail[i] == replies[i + 1]);
            assert(rest[i] == all[i + 1]);
        }
        lemma_scatter_chunks(filled, start + len, end, size, tail);
        assert(filled.subrange(0, start + len) =~= words.subrange(0, start) + replies[0]);
        assert(filled.subrange(end, filled.len() as int) =~= words.subrange(
            end,
            words.len() as int,
        ));
        assert(replies.flatten() == replies[0] + tail.flatten());
        assert(words.subrange(0, start) + replies[0] + tail.flatten() + words.subrange(
            end,
            words.len() as int,
        ) =~= words.subrange(0, start) + (replies[0] + tail.flatten()) + words.subrange(
            end,
            words.len() as int,
        ));
    } else {
        assert(replies.flatten() =~= seq![]);
        assert(words.subrange(0, start) + seq![] + words.subrange(end, words.len() as int)
            =~= words);
    }
}

} // verus!
