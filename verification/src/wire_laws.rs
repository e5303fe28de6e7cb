//! What each operation on a buffer puts on the wire, and in which transmissions.

use vstd::prelude::*;

use crate::blocking::blocking_start;
use crate::bus::transfer_transmissions;
use crate::chunk::{chunks, law_chunk_count};
use crate::exec::{exec_start, Operation};
use crate::exec_laws::{law_operations_in_order, of_operation};
use crate::master::DriverState;
use crate::transmission::{held_transmissions, Lanes, Link};
use crate::wire::{
    closing, cut, flagged, held, in_step, lemma_closing_cut, lemma_held_cut, lemma_wire_append,
    lemma_wire_cut, wire,
};

verus! {

/// Byte `i` of a buffer that is written within a transaction is sent as the `i`-th byte that is
/// clocked, nothing else is clocked, and nothing is filled. It goes out in pieces of `size`
/// bytes, CS staying active.
pub proof fn law_write_on_wire(link: Link, words: int, size: int)
    requires
        0 <= words <= usize::MAX,
        0 < size,
        size * 8 <= usize::MAX,
    ensures
        ({
            let sent = held_transmissions(link, Lanes::Write, chunks(0, words, size));
            &&& wire(sent) == in_step(0, words)
            &&& cut(sent, true, false, 0, words, size)
            &&& held(sent, link)
        }),
{
    let sent = held_transmissions(link, Lanes::Write, chunks(0, words, size));
    lemma_held_cut(link, Lanes::Write, 0, words, size);
    lemma_wire_cut(sent, true, false, 0, words, size);
    assert(wire(sent) =~= in_step(0, words));
}

/// Byte `i` of a buffer that is read within a transaction is filled with the `i`-th byte that is
/// clocked, nothing else is clocked, and nothing is sent. It comes in in pieces of `size` bytes,
/// CS staying active.
pub proof fn law_read_on_wire(link: Link, words: int, size: int)
    requires
        0 <= words <= usize::MAX,
        0 < size,
        size * 8 <= usize::MAX,
    ensures
        ({
            let sent = held_transmissions(link, Lanes::Read, chunks(0, words, size));
            &&& wire(sent) == in_step(words, 0)
            &&& cut(sent, false, true, 0, words, size)
            &&& held(sent, link)
        }),
{
    let sent = held_transmissions(link, Lanes::Read, chunks(0, words, size));
    lemma_held_cut(link, Lanes::Read, 0, words, size);
    lemma_wire_cut(sent, false, true, 0, words, size);
    assert(wire(sent) =~= in_step(words, 0));
}

/// Byte `i` of a buffer that is transferred in place is sent, and filled, as the `i`-th byte that
/// is clocked, and nothing else is clocked. It goes by in pieces of `size` bytes, CS staying
/// active.
pub proof fn law_in_place_on_wire(link: Link, words: int, size: int)
    requires
        0 <= words <= usize::MAX,
        0 < size,
        size * 8 <= usize::MAX,
    ensures
        ({
            let sent = held_transmissions(link, Lanes::Both, chunks(0, words, size));
            &&& wire(sent) == in_step(words, words)
            &&& cut(sent, true, true, 0, words, size)
            &&& held(sent, link)
        }),
{
    let sent = held_transmissions(link, Lanes::Both, chunks(0, words, size));
    lemma_held_cut(link, Lanes::Both, 0, words, size);
    lemma_wire_cut(sent, true, true, 0, words, size);
    assert(wire(sent) =~= in_step(words, words));
}

/// In a transfer the two directions run in step: byte `i` of the write buffer is sent, and byte
/// `i` of the read buffer is filled, with the `i`-th byte that is clocked, so that only the bytes
/// that the shorter buffer does not have go by alone, after all the common ones. The common part
/// goes by in pieces of `size` bytes, then the rest of the longer buffer does, CS staying active.
pub proof fn law_transfer_on_wire(link: Link, read: int, write: int, size: int)
    requires
        0 <= read <= usize::MAX,
        0 <= write <= usize::MAX,
        0 < size,
        size * 8 <= usize::MAX,
    ensures
        ({
            let sent = transfer_transmissions(link, read, write, size);
            let common = if read > write {
                write
            } else {
                read
            };
            let longer = if read > write {
                read
            } else {
                write
            };
            let front = (common + size - 1) / size;
            &&& wire(sent) == in_step(read, write)
            &&& 0 <= front <= sent.len()
            &&& cut(sent.take(front), true, true, 0, common, size)
            &&& cut(sent.skip(front), write > read, read > write, common, longer, size)
            &&& held(sent, link)
            &&& forall|i: int| #![trigger sent[i]]
                0 <= i < sent.len() && sent[i].tx is Some && sent[i].rx is Some
                    ==> sent[i].tx->0.start == sent[i].rx->0.start && sent[i].tx->0.len
                    == sent[i].rx->0.len
        }),
{
    let common = if read > write {
        write
    } else {
        read
    };
    let longer = if read > write {
        read
    } else {
        write
    };
    let lanes = if read > write {
        Lanes::Read
    } else {
        Lanes::Write
    };
    let a = held_transmissions(link, Lanes::Both, chunks(0, common, size));
    let b = held_transmissions(link, lanes, chunks(common, longer, size));
    let sent = transfer_transmissions(link, read, write, size);
    assert(sent == a + b);
    lemma_held_cut(link, Lanes::Both, 0, common, size);
    lemma_held_cut(link, lanes, common, longer, size);
    lemma_wire_cut(a, true, true, 0, common, size);
    lemma_wire_cut(b, lanes != Lanes::Read, lanes != Lanes::Write, common, longer, size);
    lemma_wire_append(a, b);
    assert(wire(sent) =~= in_step(read, write));
    assert(sent.take(a.len() as int) =~= a);
    assert(sent.skip(a.len() as int) =~= b);
    if read == write {
        law_chunk_count(common, longer, size);
        assert((size - 1) / size == 0) by (nonlinear_arith)
            requires
                0 < size,
        ;
    }
    assert forall|i: int| #![trigger sent[i]] 0 <= i < sent.len() implies sent[i].handle
        == link.handle && flagged(sent[i], link, true) && (sent[i].tx is Some
        && sent[i].rx is Some ==> sent[i].tx->0.start == sent[i].rx->0.start && sent[i].tx->0.len
        == sent[i].rx->0.len) by {
        if i < a.len() {
            assert(sent[i] == a[i]);
        } else {
            assert(sent[i] == b[i - a.len()]);
        }
    }
}

/// A buffer that is written outside of a transaction goes out like one within, byte `i` as the
/// `i`-th byte that is clocked; only CS is let go of with the last piece.
pub proof fn law_blocking_write_on_wire(driver: DriverState, words: int)
    requires
        0 <= words <= usize::MAX,
        0 < driver.max_transfer_size,
        driver.max_transfer_size * 8 <= usize::MAX,
    ensures
        ({
            let sent = blocking_start(driver, Lanes::Write, words).pending;
            &&& wire(sent) == in_step(0, words)
            &&& cut(sent, true, false, 0, words, driver.max_transfer_size)
            &&& closing(sent, driver.link)
        }),
{
    let sent = blocking_start(driver, Lanes::Write, words).pending;
    lemma_closing_cut(driver.link, Lanes::Write, 0, words, driver.max_transfer_size);
    lemma_wire_cut(sent, true, false, 0, words, driver.max_transfer_size);
    assert(wire(sent) =~= in_step(0, words));
}

/// A buffer that is transferred outside of a transaction goes by like one within, byte `i` sent
/// and filled as the `i`-th byte that is clocked; only CS is let go of with the last piece.
pub proof fn law_blocking_transfer_on_wire(driver: DriverState, words: int)
    requires
        0 <= words <= usize::MAX,
        0 < driver.max_transfer_size,
        driver.max_transfer_size * 8 <= usize::MAX,
    ensures
        ({
            let sent = blocking_start(driver, Lanes::Both, words).pending;
            &&& wire(sent) == in_step(words, words)
            &&& cut(sent, true, true, 0, words, driver.max_transfer_size)
            &&& closing(sent, driver.link)
        }),
{
    let sent = blocking_start(driver, Lanes::Both, words).pending;
    lemma_closing_cut(driver.link, Lanes::Both, 0, words, driver.max_transfer_size);
    lemma_wire_cut(sent, true, true, 0, words, driver.max_transfer_size);
    assert(wire(sent) =~= in_step(words, words));
}

/// What an operation of a list puts on the wire is its whole buffer: byte `i` of it is sent as the
/// `i`-th byte that is clocked for it, and filled then too if the operation is a transfer; nothing
/// else is clocked for it. It goes by in pieces of `size` bytes, CS staying active.
pub proof fn law_operation_on_wire(
    link: Link,
    size: int,
    operations: Seq<Operation>,
    index: int,
)
    requires
        0 <= index < operations.len() <= usize::MAX,
        0 < size,
        size * 8 <= usize::MAX,
    ensures
        ({
            let sent = of_operation(exec_start(link, size, operations).pending, index);
            &&& held(sent, link)
            &&& operations[index] matches Operation::Write(words) ==> {
                &&& wire(sent) == in_step(0, words as int)
                &&& cut(sent, true, false, 0, words as int, size)
            }
            &&& operations[index] matches Operation::Transfer(words) ==> {
                &&& wire(sent) == in_step(words as int, words as int)
                &&& cut(sent, true, true, 0, words as int, size)
            }
        }),
{
    law_operations_in_order(link, size, operations, index);
    match operations[index] {
        Operation::Write(words) => {
            law_write_on_wire(link, words as int, size);
        },
        Operation::Transfer(words) => {
            law_in_place_on_wire(link, words as int, size);
        },
    }
}

} // verus!
