//! A write within one transaction, of bytes that are pulled one by one from a source. They are
//! collected until a buffer is full or the source has none, then the buffer is written.

use vstd::prelude::*;

use crate::bus::{bus_step, BusAction, BusCall, SpiBusMasterDriver};
use crate::call::{into_spi_result, spi_result};
use crate::chunk::chunks;
use crate::error::{other_error, to_spi_err, SpiError};
use crate::sys::{esp_result, DeviceHandle, ESP_OK};
use crate::transaction::{
    lock_result, transaction_result, Action, BusTransaction, Lock, Reply, Stage,
};
use crate::transmission::{held_transmissions, Lanes, Transmission};

verus! {

/// What a call wants next.
#[derive(Debug, PartialEq, Eq)]
pub enum WriteIterAction {
    /// Acquire the bus for this device, however long it takes.
    AcquireBus(DeviceHandle),
    /// Pull the next byte from the source.
    NextWord,
    /// Perform this transmission on the bytes that were collected.
    Transmit(Transmission),
    /// Perform this transmission, which has no buffer.
    Finish(Transmission),
    /// Release the bus that was acquired for this device.
    ReleaseBus(DeviceHandle),
    /// The call returns this.
    Return(Result<(), SpiError>),
}

/// What came of the last action.
#[derive(Copy, Clone, Debug, PartialEq, Eq, Structural)]
pub enum WriteIterReply {
    /// There was none: the call begins.
    Start,
    /// The status of the attempt to acquire the bus.
    Acquired(i32),
    /// The next byte, or none.
    Word(Option<u8>),
    /// The status of the transmission.
    Transmitted(i32),
    /// The bus has been released.
    Released,
}

/// A call: the stage of its transaction, the bytes in its buffer, and, while they are written,
/// the transmissions of them that it has not handed out yet.
pub struct WriteIterState {
    pub stage: Stage<(), SpiError>,
    pub collected: Seq<u8>,
    pub writing: Option<Seq<Transmission>>,
}

/// A call that has not begun.
pub open spec fn write_iter_start() -> WriteIterState {
    WriteIterState { stage: Stage::Start, collected: seq![], writing: None }
}

impl WriteIterState {
    /// Whether a reply is one to the action that led to this state.
    pub open spec fn expects(self, reply: WriteIterReply) -> bool {
        match self.stage {
            Stage::Start => reply is Start,
            Stage::Acquiring => reply is Acquired,
            Stage::Running(_) => if self.writing is Some {
                reply is Transmitted
            } else {
                reply is Word
            },
            Stage::Finishing(_, _) => reply is Transmitted,
            Stage::Releasing(_) => reply is Released,
            Stage::Done => false,
        }
    }

    /// Whether a reply makes the call begin to write what it has collected, which it does when
    /// the buffer is full or the source has run dry.
    pub open spec fn begins_write(self, capacity: int, reply: WriteIterReply) -> bool {
        match reply {
            WriteIterReply::Word(Some(_)) => self.collected.len() + 1 >= capacity,
            WriteIterReply::Word(None) => self.collected.len() > 0,
            _ => false,
        }
    }
}

/// The body is over: CS is let go of.
pub open spec fn write_iter_finish(
    bus: SpiBusMasterDriver,
    lock: Lock,
    collected: Seq<u8>,
    ran: Result<(), SpiError>,
) -> (WriteIterState, WriteIterAction) {
    (
        WriteIterState { stage: Stage::Finishing(lock, ran), collected, writing: None },
        WriteIterAction::Finish(bus.finish_transmission()),
    )
}

/// The buffer is empty: it is filled again, unless it holds nothing.
pub open spec fn write_iter_refill(bus: SpiBusMasterDriver, capacity: int, lock: Lock) -> (
    WriteIterState,
    WriteIterAction,
) {
    if capacity == 0 {
        write_iter_finish(bus, lock, seq![], Ok(()))
    } else {
        (
            WriteIterState { stage: Stage::Running(lock), collected: seq![], writing: None },
            WriteIterAction::NextWord,
        )
    }
}

/// The bytes in the buffer are written, as far as `pending` says; `status` is how the last
/// transmission of them ended.
pub open spec fn write_iter_flush(
    bus: SpiBusMasterDriver,
    capacity: int,
    lock: Lock,
    collected: Seq<u8>,
    pending: Seq<Transmission>,
    status: i32,
) -> (WriteIterState, WriteIterAction) {
    let (rest, action) = bus_step(pending, status);
    match action {
        BusAction::Transmit(sent) => (
            WriteIterState { stage: Stage::Running(lock), collected, writing: Some(rest) },
            WriteIterAction::Transmit(sent),
        ),
        BusAction::Return(Err(e)) => write_iter_finish(
            bus,
            lock,
            collected,
            Err(other_error(e)),
        ),
        BusAction::Return(Ok(_)) => write_iter_refill(bus, capacity, lock),
    }
}

/// The transmissions that write these bytes.
pub open spec fn write_iter_transmissions(bus: SpiBusMasterDriver, collected: Seq<u8>) -> Seq<
    Transmission,
> {
    held_transmissions(
        bus.link(),
        Lanes::Write,
        chunks(0, collected.len() as int, bus.trans_len()),
    )
}

/// What a call does in a state when a reply comes in.
pub open spec fn write_iter_step(
    bus: SpiBusMasterDriver,
    capacity: int,
    state: WriteIterState,
    reply: WriteIterReply,
) -> (WriteIterState, WriteIterAction)
    recommends
        state.expects(reply),
{
    let device = bus.link().handle;
    match state.stage {
        Stage::Start => (
            WriteIterState { stage: Stage::Acquiring, ..state },
            WriteIterAction::AcquireBus(device),
        ),
        Stage::Acquiring => match lock_result(device, reply->Acquired_0) {
            Ok(lock) => write_iter_refill(bus, capacity, lock),
            Err(e) => (
                WriteIterState { stage: Stage::Done, ..state },
                WriteIterAction::Return(Err(other_error(e))),
            ),
        },
        Stage::Running(lock) => match reply {
            WriteIterReply::Transmitted(status) => write_iter_flush(
                bus,
                capacity,
                lock,
                state.collected,
                state.writing->0,
                status,
            ),
            WriteIterReply::Word(word) => {
                let collected = match word {
                    Some(word) => state.collected.push(word),
                    None => state.collected,
                };
                if state.begins_write(capacity, reply) {
                    write_iter_flush(
                        bus,
                        capacity,
                        lock,
                        collected,
                        write_iter_transmissions(bus, collected),
                        ESP_OK,
                    )
                } else if word is Some {
                    (WriteIterState { collected, ..state }, WriteIterAction::NextWord)
                } else {
                    write_iter_finish(bus, lock, collected, Ok(()))
                }
            },
            _ => (state, WriteIterAction::NextWord),
        },
        Stage::Finishing(lock, ran) => (
            WriteIterState {
                stage: Stage::Releasing(
                    transaction_result(ran, esp_result(reply->Transmitted_0), Ok(())),
                ),
                ..state
            },
            WriteIterAction::ReleaseBus(lock.device),
        ),
        Stage::Releasing(result) => (
            WriteIterState { stage: Stage::Done, ..state },
            WriteIterAction::Return(spi_result(result)),
        ),
        Stage::Done => (state, WriteIterAction::AcquireBus(device)),
    }
}

/// A write from a source that is under way.
#[derive(Debug)]
pub struct WriteIterCall {
    transaction: BusTransaction<(), SpiError>,
    capacity: usize,
    buf: Vec<u8>,
    write: Option<BusCall>,
}

impl View for WriteIterCall {
    type V = WriteIterState;

    closed spec fn view(&self) -> WriteIterState {
        WriteIterState {
            stage: self.transaction.stage(),
            collected: self.buf@,
            writing: match self.write {
                Some(write) => Some(write@),
                None => None,
            },
        }
    }
}

impl WriteIterCall {
    pub closed spec fn wf(&self) -> bool {
        &&& self.transaction.bus().wf()
        &&& self.write matches Some(write) ==> write.wf()
        &&& self.transaction.stage() is Running && self.write is None ==> self.buf.len()
            < self.capacity
        &&& self.transaction.stage() is Finishing ==> self.write is None
    }

    pub closed spec fn bus(&self) -> SpiBusMasterDriver {
        self.transaction.bus()
    }

    /// The number of bytes that the buffer holds.
    pub closed spec fn capacity(&self) -> int {
        self.capacity as int
    }

    pub(crate) fn new(transaction: BusTransaction<(), SpiError>, capacity: usize) -> (call:
        WriteIterCall)
        requires
            transaction.bus().wf(),
            transaction.stage() is Start,
        ensures
            call.wf(),
            call.bus() == transaction.bus(),
            call.capacity() == capacity,
            call@ == write_iter_start(),
    {
        WriteIterCall { transaction, capacity, buf: Vec::new(), write: None }
    }

    /// The bytes that were collected: those that a transmission of this call is about.
    pub fn words(&self) -> (words: &[u8])
        ensures
            words@ == self@.collected,
    {
        self.buf.as_slice()
    }

    /// Whether a reply makes the call begin to write what it has collected.
    pub fn begins_write(&self, reply: &WriteIterReply) -> (begins: bool)
        ensures
            begins == self@.begins_write(self.capacity(), *reply),
            *reply is Word && (*reply)->Word_0 is Some ==> begins == (self@.collected.len() + 1
                >= self.capacity()),
            *reply is Word && (*reply)->Word_0 is None ==> begins == (self@.collected.len() > 0),
            !(*reply is Word) ==> !begins,
    {
        match reply {
            WriteIterReply::Word(Some(_)) => {
                self.capacity == 0 || self.buf.len() >= self.capacity - 1
            },
            WriteIterReply::Word(None) => self.buf.len() > 0,
            _ => false,
        }
    }

    /// Moves the call on. `reply` is what came of the action that was last handed out; before
    /// the first one it is `WriteIterReply::Start`.
    ///
    /// A bus that transmits no bytes at all can write nothing.
    pub fn step(self, reply: WriteIterReply) -> (res: (WriteIterCall, WriteIterAction))
        requires
            self.wf(),
            self@.expects(reply),
            self@.begins_write(self.capacity(), reply) ==> self.bus().trans_len() > 0,
        ensures
            res.0.wf(),
            res.0.bus() == self.bus(),
            res.0.capacity() == self.capacity(),
            (res.0@, res.1) == write_iter_step(self.bus(), self.capacity(), self@, reply),
    {
        let WriteIterCall { transaction, capacity, mut buf, write } = self;
        match reply {
            WriteIterReply::Start => WriteIterCall::forward(
                transaction,
                capacity,
                buf,
                write,
                Reply::Start,
            ),
            WriteIterReply::Acquired(status) => {
                let (transaction, action) = transaction.step(Reply::Acquired(status));
                match action {
                    Action::Return(result) => (
                        WriteIterCall { transaction, capacity, buf, write },
                        WriteIterAction::Return(into_spi_result(result)),
                    ),
                    _ => WriteIterCall::refill(transaction, capacity),
                }
            },
            WriteIterReply::Word(word) => {
                let room: bool = match word {
                    Some(word) => {
                        buf.push(word);
                        buf.len() < capacity
                    },
                    None => false,
                };
                if room {
                    return (
                        WriteIterCall { transaction, capacity, buf, write },
                        WriteIterAction::NextWord,
                    );
                }
                if buf.len() == 0 {
                    return WriteIterCall::forward(
                        transaction,
                        capacity,
                        buf,
                        write,
                        Reply::Ran(Ok(())),
                    );
                }
                let mut bus = transaction.current_bus();
                let begun = bus.write(buf.len());
                WriteIterCall::flush(transaction, capacity, buf, begun, ESP_OK)
            },
            WriteIterReply::Transmitted(status) => {
                match write {
                    Some(pending) => {
                        if transaction.is_running() {
                            return WriteIterCall::flush(
                                transaction,
                                capacity,
                                buf,
                                pending,
                                status,
                            );
                        }
                    },
                    None => {},
                }
                WriteIterCall::forward(
                    transaction,
                    capacity,
                    buf,
                    None,
                    Reply::Transmitted(status),
                )
            },
            WriteIterReply::Released => WriteIterCall::forward(
                transaction,
                capacity,
                buf,
                write,
                Reply::Released,
            ),
        }
    }

    /// Steps the transaction where its body is not about to run.
    fn forward(
        transaction: BusTransaction<(), SpiError>,
        capacity: usize,
        buf: Vec<u8>,
        write: Option<BusCall>,
        reply: Reply<(), SpiError>,
    ) -> (res: (WriteIterCall, WriteIterAction))
        requires
            transaction.bus().wf(),
            transaction.stage().expects(reply),
            !(reply is Acquired),
            write matches Some(write) ==> write.wf(),
            reply is Ran ==> write is None,
        ensures
            res.0.wf(),
            res.0.bus() == transaction.bus(),
            res.0.capacity() == capacity,
            ({
                let bus = transaction.bus();
                let state = WriteIterState {
                    stage: transaction.stage(),
                    collected: buf@,
                    writing: match write {
                        Some(write) => Some(write@),
                        None => None,
                    },
                };
                (res.0@, res.1) == match reply {
                    Reply::Ran(ran) => write_iter_finish(bus, state.stage->Running_0, buf@, ran),
                    Reply::Transmitted(status) => write_iter_step(
                        bus,
                        capacity as int,
                        state,
                        WriteIterReply::Transmitted(status),
                    ),
                    Reply::Released => write_iter_step(
                        bus,
                        capacity as int,
                        state,
                        WriteIterReply::Released,
                    ),
                    _ => write_iter_step(bus, capacity as int, state, WriteIterReply::Start),
                }
            }),
    {
        let (transaction, action) = transaction.step(reply);
        let action = match action {
            Action::AcquireBus(device) => WriteIterAction::AcquireBus(device),
            Action::Transmit(sent) => WriteIterAction::Finish(sent),
            Action::ReleaseBus(device) => WriteIterAction::ReleaseBus(device),
            Action::Return(result) => WriteIterAction::Return(into_spi_result(result)),
            Action::Run(_) => vstd::pervasive::unreached(),
        };
        (WriteIterCall { transaction, capacity, buf, write }, action)
    }

    /// Empties the buffer and begins to fill it.
    fn refill(transaction: BusTransaction<(), SpiError>, capacity: usize) -> (res: (
        WriteIterCall,
        WriteIterAction,
    ))
        requires
            transaction.bus().wf(),
            transaction.stage() is Running,
        ensures
            res.0.wf(),
            res.0.bus() == transaction.bus(),
            res.0.capacity() == capacity,
            (res.0@, res.1) == write_iter_refill(
                transaction.bus(),
                capacity as int,
                transaction.stage()->Running_0,
            ),
    {
        let buf: Vec<u8> = Vec::new();
        if capacity == 0 {
            return WriteIterCall::forward(transaction, capacity, buf, None, Reply::Ran(Ok(())));
        }
        (
            WriteIterCall { transaction, capacity, buf, write: None },
            WriteIterAction::NextWord,
        )
    }

    /// Goes on writing the buffer.
    fn flush(
        transaction: BusTransaction<(), SpiError>,
        capacity: usize,
        buf: Vec<u8>,
        pending: BusCall,
        status: i32,
    ) -> (res: (WriteIterCall, WriteIterAction))
        requires
            transaction.bus().wf(),
            transaction.stage() is Running,
            pending.wf(),
        ensures
            res.0.wf(),
            res.0.bus() == transaction.bus(),
            res.0.capacity() == capacity,
            (res.0@, res.1) == write_iter_flush(
                transaction.bus(),
                capacity as int,
                transaction.stage()->Running_0,
                buf@,
                pending@,
                status,
            ),
    {
        let (rest, action) = pending.step(status);
        match action {
            BusAction::Transmit(sent) => (
                WriteIterCall { transaction, capacity, buf, write: Some(rest) },
                WriteIterAction::Transmit(sent),
            ),
            BusAction::Return(Err(e)) => WriteIterCall::forward(
                transaction,
                capacity,
                buf,
                None,
                Reply::Ran(Err(to_spi_err(e))),
            ),
            BusAction::Return(Ok(_)) => WriteIterCall::refill(transaction, capacity),
        }
    }
}

} // verus!
