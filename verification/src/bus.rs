//! The bus as a transaction sees it: reads, writes and transfers of any length, cut into
//! transmissions.

use vstd::prelude::*;

use crate::chunk::{chunks, Span};
use crate::sys::{esp, esp_result, EspError};
use crate::transmission::{
    held_transmissions, lemma_held_first, polling_transmit, transmission, transmit_chunk, Lanes,
    Link, Transmission,
};
use crate::wire::{cut, held, in_step, wire};
use crate::wire_laws::{
    law_in_place_on_wire, law_read_on_wire, law_transfer_on_wire, law_write_on_wire,
};

verus! {

/// The most bytes that one transmission may have, with DMA.
pub const MAX_TRANSFER_SIZE: usize = 4096;

/// What a running call on the bus wants next.
#[derive(Copy, Clone, Debug, PartialEq, Eq)]
pub enum BusAction {
    /// Perform this transmission and step on with its status.
    Transmit(Transmission),
    /// The call returns this.
    Return(Result<(), EspError>),
}

/// What a call on the bus does when `pending` is what it still has to transmit and `status` is
/// how the last transmission ended: it stops at the first failure, and returns it.
pub open spec fn bus_step(pending: Seq<Transmission>, status: i32) -> (
    Seq<Transmission>,
    BusAction,
) {
    match esp_result(status) {
        Err(e) => (pending, BusAction::Return(Err(e))),
        Ok(_) => if pending.len() == 0 {
            (pending, BusAction::Return(Ok(())))
        } else {
            (pending.drop_first(), BusAction::Transmit(pending[0]))
        },
    }
}

/// The transmissions of a `transfer` of `read` and `write` bytes: both buffers as far as both
/// reach, then the rest of the longer one.
pub open spec fn transfer_transmissions(link: Link, read: int, write: int, size: int) -> Seq<
    Transmission,
> {
    if read > write {
        held_transmissions(link, Lanes::Both, chunks(0, write, size)) + held_transmissions(
            link,
            Lanes::Read,
            chunks(write, read, size),
        )
    } else {
        held_transmissions(link, Lanes::Both, chunks(0, read, size)) + held_transmissions(
            link,
            Lanes::Write,
            chunks(read, write, size),
        )
    }
}

/// A read, a write or a transfer on the bus that is under way. Its view is the list of the
/// transmissions that it has not handed out yet.
#[derive(Debug)]
pub struct BusCall {
    link: Link,
    trans_len: usize,
    pos: usize,
    split: usize,
    end: usize,
    head: Lanes,
    tail: Lanes,
}

impl View for BusCall {
    type V = Seq<Transmission>;

    closed spec fn view(&self) -> Seq<Transmission> {
        let size = self.trans_len as int;
        if self.pos < self.split {
            held_transmissions(
                self.link,
                self.head,
                chunks(self.pos as int, self.split as int, size),
            ) + held_transmissions(
                self.link,
                self.tail,
                chunks(self.split as int, self.end as int, size),
            )
        } else {
            held_transmissions(
                self.link,
                self.tail,
                chunks(self.pos as int, self.end as int, size),
            )
        }
    }
}

impl BusCall {
    pub closed spec fn wf(&self) -> bool {
        &&& self.pos <= self.end
        &&& self.split <= self.end
        &&& 0 < self.trans_len <= MAX_TRANSFER_SIZE
    }

    /// Moves the call on. `status` is how the transmission that was last handed out ended;
    /// before the first one it is `ESP_OK`.
    pub fn step(self, status: i32) -> (res: (BusCall, BusAction))
        requires
            self.wf(),
        ensures
            res.0.wf(),
            (res.0@, res.1) == bus_step(self@, status),
            status != 0 ==> res.1 == BusAction::Return(Err(EspError { code: status })),
            status == 0 && self@.len() == 0 ==> res.1 == BusAction::Return(Ok(())),
            status == 0 && self@.len() > 0 ==> res.1 == BusAction::Transmit(self@[0]) && res.0@
                == self@.drop_first(),
    {
        match esp(status) {
            Err(e) => (self, BusAction::Return(Err(e))),
            Ok(_) => {
                if self.pos == self.end {
                    assert(self@ =~= seq![]);
                    return (self, BusAction::Return(Ok(())));
                }
                let in_head: bool = self.pos < self.split;
                let stop: usize = if in_head {
                    self.split
                } else {
                    self.end
                };
                let lanes = if in_head {
                    self.head
                } else {
                    self.tail
                };
                let len: usize = if stop - self.pos < self.trans_len {
                    stop - self.pos
                } else {
                    self.trans_len
                };
                let span = Span { start: self.pos, len };
                let sent = transmit_chunk(self.link, lanes, span, true);
                let next = BusCall { pos: self.pos + len, ..self };
                proof {
                    lemma_held_first(
                        self.link,
                        lanes,
                        self.pos as int,
                        stop as int,
                        self.trans_len as int,
                    );
                    if next.pos == self.split {
                        assert(held_transmissions(
                            self.link,
                            lanes,
                            chunks(next.pos as int, stop as int, self.trans_len as int),
                        ) =~= seq![]);
                    }
                    assert(next@ =~= self@.drop_first());
                }
                (next, BusAction::Transmit(sent))
            },
        }
    }
}

/// The bus of a device, for the time of a transaction.
#[derive(Debug, PartialEq, Eq)]
pub struct SpiBusMasterDriver {
    link: Link,
    trans_len: usize,
}

impl SpiBusMasterDriver {
    pub closed spec fn link(&self) -> Link {
        self.link
    }

    /// The most bytes that one transmission has.
    pub closed spec fn trans_len(&self) -> int {
        self.trans_len as int
    }

    pub open spec fn wf(&self) -> bool {
        0 <= self.trans_len() <= MAX_TRANSFER_SIZE
    }

    /// The transmission that ends a transaction: it moves nothing and lets go of CS.
    pub open spec fn finish_transmission(&self) -> Transmission {
        transmission(self.link(), None, None, 0, 0, false)
    }

    pub(crate) fn new(link: Link, trans_len: usize) -> (bus: SpiBusMasterDriver)
        requires
            trans_len <= MAX_TRANSFER_SIZE,
        ensures
            bus.wf(),
            bus.link() == link,
            bus.trans_len() == trans_len,
    {
        SpiBusMasterDriver { link, trans_len }
    }

    /// The same bus again, for the owner of the transaction.
    pub(crate) fn alias(&self) -> (bus: SpiBusMasterDriver)
        ensures
            bus == *self,
    {
        SpiBusMasterDriver { link: self.link, trans_len: self.trans_len }
    }

    pub(crate) fn device_link(&self) -> (link: Link)
        ensures
            link == self.link(),
    {
        self.link
    }

    /// Begins to read `words` bytes.
    pub fn read(&mut self, words: usize) -> (call: BusCall)
        requires
            old(self).wf(),
            old(self).trans_len() > 0,
        ensures
            *final(self) == *old(self),
            call.wf(),
            call@ == held_transmissions(
                old(self).link(),
                Lanes::Read,
                chunks(0, words as int, old(self).trans_len()),
            ),
            wire(call@) == in_step(words as int, 0),
            cut(call@, false, true, 0, words as int, old(self).trans_len()),
            held(call@, old(self).link()),
    {
        proof {
            law_read_on_wire(self.link(), words as int, self.trans_len());
        }
        self.start(0, words, Lanes::Read, Lanes::Read)
    }

    /// Begins to write `words` bytes.
    pub fn write(&mut self, words: usize) -> (call: BusCall)
        requires
            old(self).wf(),
            old(self).trans_len() > 0,
        ensures
            *final(self) == *old(self),
            call.wf(),
            call@ == held_transmissions(
                old(self).link(),
                Lanes::Write,
                chunks(0, words as int, old(self).trans_len()),
            ),
            wire(call@) == in_step(0, words as int),
            cut(call@, true, false, 0, words as int, old(self).trans_len()),
            held(call@, old(self).link()),
    {
        proof {
            law_write_on_wire(self.link(), words as int, self.trans_len());
        }
        self.start(0, words, Lanes::Write, Lanes::Write)
    }

    /// Begins to read `read` bytes while writing `write` bytes. The longer one goes on alone.
    pub fn transfer(&mut self, read: usize, write: usize) -> (call: BusCall)
        requires
            old(self).wf(),
            old(self).trans_len() > 0,
        ensures
            *final(self) == *old(self),
            call.wf(),
            call@ == transfer_transmissions(
                old(self).link(),
                read as int,
                write as int,
                old(self).trans_len(),
            ),
            wire(call@) == in_step(read as int, write as int),
            held(call@, old(self).link()),
    {
        proof {
            law_transfer_on_wire(self.link(), read as int, write as int, self.trans_len());
        }
        if read > write {
            self.start(write, read, Lanes::Both, Lanes::Read)
        } else {
            self.start(read, write, Lanes::Both, Lanes::Write)
        }
    }

    /// Begins to write `words` bytes and to read as many into the same buffer.
    pub fn transfer_in_place(&mut self, words: usize) -> (call: BusCall)
        requires
            old(self).wf(),
            old(self).trans_len() > 0,
        ensures
            *final(self) == *old(self),
            call.wf(),
            call@ == held_transmissions(
                old(self).link(),
                Lanes::Both,
                chunks(0, words as int, old(self).trans_len()),
            ),
            wire(call@) == in_step(words as int, words as int),
            cut(call@, true, true, 0, words as int, old(self).trans_len()),
            held(call@, old(self).link()),
    {
        proof {
            law_in_place_on_wire(self.link(), words as int, self.trans_len());
        }
        self.start(0, words, Lanes::Both, Lanes::Both)
    }

    /// Waits for what is under way. Each transmission is polled to its end, so nothing is.
    pub fn flush(&mut self) -> (result: Result<(), EspError>)
        ensures
            *final(self) == *old(self),
            result == Ok::<(), EspError>(()),
    {
        Ok(())
    }

    /// The empty transmission that lets go of CS.
    pub(crate) fn finish(&mut self) -> (sent: Transmission)
        ensures
            *final(self) == *old(self),
            sent == old(self).finish_transmission(),
            sent.handle == old(self).link().handle,
            sent.flags == 0,
            sent.tx is None,
            sent.rx is None,
            sent.length == 0,
            sent.rxlength == 0,
    {
        polling_transmit(self.link, None, None, 0, 0, false)
    }

    /// Begins a call on the bytes up to `split` with the first lanes, and on those from there to
    /// `end` with the second.
    fn start(&self, split: usize, end: usize, head: Lanes, tail: Lanes) -> (call: BusCall)
        requires
            self.wf(),
            self.trans_len() > 0,
            split <= end,
        ensures
            call.wf(),
            call@ == held_transmissions(
                self.link(),
                head,
                chunks(0, split as int, self.trans_len()),
            ) + held_transmissions(
                self.link(),
                tail,
                chunks(split as int, end as int, self.trans_len()),
            ),
    {
        let call = BusCall {
            link: self.link,
            trans_len: self.trans_len,
            pos: 0,
            split,
            end,
            head,
            tail,
        };
        assert(call@ =~= held_transmissions(
            self.link(),
            head,
            chunks(0, split as int, self.trans_len()),
        ) + held_transmissions(
            self.link(),
            tail,
            chunks(split as int, end as int, self.trans_len()),
        ));
        call
    }
}

} // verus!
