//! A single transfer or write outside of a transaction. CS is let go of with the last
//! transmission, so none has to follow.

use vstd::prelude::*;

use crate::bus::MAX_TRANSFER_SIZE;
use crate::call::CallReply;
use crate::chunk::{chunks, Span};
use crate::error::{other_error, to_spi_err, SpiError};
use crate::master::DriverState;
use crate::sys::{esp, esp_result, DeviceHandle, EspError, ESP_OK};
use crate::transaction::{lock_result, Lock};
use crate::transmission::{
    closing_transmissions, transmit_chunk, Lanes, Link, Transmission,
};

verus! {

/// How far a call has come.
#[derive(Debug, PartialEq, Eq)]
pub enum BlockingStage {
    Start,
    Acquiring,
    /// With the bus.
    Transmitting(Lock),
    Releasing(Result<(), SpiError>),
    Done,
}

/// What a call wants next.
#[derive(Debug, PartialEq, Eq)]
pub enum BlockingAction {
    /// Acquire the bus for this device, however long it takes.
    AcquireBus(DeviceHandle),
    /// Perform this transmission.
    Transmit(Transmission),
    /// Release the bus that was acquired for this device.
    ReleaseBus(DeviceHandle),
    /// The call returns this.
    Return(Result<(), SpiError>),
}

/// A call: its stage, and the transmissions that it has not handed out yet.
pub struct BlockingState {
    pub stage: BlockingStage,
    pub pending: Seq<Transmission>,
}

impl BlockingStage {
    /// Whether a reply is one to the action that led to this stage.
    pub open spec fn expects(self, reply: CallReply) -> bool {
        match self {
            BlockingStage::Start => reply is Start,
            BlockingStage::Acquiring => reply is Acquired,
            BlockingStage::Transmitting(_) => reply is Transmitted,
            BlockingStage::Releasing(_) => reply is Released,
            BlockingStage::Done => false,
        }
    }
}

/// A call of a driver that has not begun.
pub open spec fn blocking_start(driver: DriverState, lanes: Lanes, words: int) -> BlockingState {
    BlockingState {
        stage: BlockingStage::Start,
        pending: closing_transmissions(
            driver.link,
            lanes,
            chunks(0, words, driver.max_transfer_size),
        ),
    }
}

/// A call that is over, but for the bus.
pub open spec fn blocking_leave(
    pending: Seq<Transmission>,
    lock: Lock,
    result: Result<(), SpiError>,
) -> (BlockingState, BlockingAction) {
    (
        BlockingState { stage: BlockingStage::Releasing(result), pending },
        BlockingAction::ReleaseBus(lock.device),
    )
}

/// What a call returns when the bus could not be acquired: the error, unless there was nothing
/// to transmit.
pub open spec fn blocking_refused(pending: Seq<Transmission>, e: EspError) -> Result<
    (),
    SpiError,
> {
    if pending.len() == 0 {
        Ok(())
    } else {
        Err(other_error(e))
    }
}

/// The next transmission of a call, unless the last one failed or there is none.
pub open spec fn blocking_next(pending: Seq<Transmission>, lock: Lock, status: i32) -> (
    BlockingState,
    BlockingAction,
) {
    match esp_result(status) {
        Err(e) => blocking_leave(pending, lock, Err(other_error(e))),
        Ok(_) => if pending.len() == 0 {
            blocking_leave(pending, lock, Ok(()))
        } else {
            (
                BlockingState {
                    stage: BlockingStage::Transmitting(lock),
                    pending: pending.drop_first(),
                },
                BlockingAction::Transmit(pending[0]),
            )
        },
    }
}

/// What a call does in a state when a reply comes in. It transmits nothing without the bus.
pub open spec fn blocking_step(device: DeviceHandle, state: BlockingState, reply: CallReply) -> (
    BlockingState,
    BlockingAction,
)
    recommends
        state.stage.expects(reply),
{
    let pending = state.pending;
    match state.stage {
        BlockingStage::Start => (
            BlockingState { stage: BlockingStage::Acquiring, pending },
            BlockingAction::AcquireBus(device),
        ),
        BlockingStage::Acquiring => match lock_result(device, reply->Acquired_0) {
            Ok(lock) => blocking_next(pending, lock, ESP_OK),
            Err(e) => (
                BlockingState { stage: BlockingStage::Done, pending },
                BlockingAction::Return(blocking_refused(pending, e)),
            ),
        },
        BlockingStage::Transmitting(lock) => blocking_next(pending, lock, reply->Transmitted_0),
        BlockingStage::Releasing(result) => (
            BlockingState { stage: BlockingStage::Done, pending },
            BlockingAction::Return(result),
        ),
        BlockingStage::Done => (state, BlockingAction::AcquireBus(device)),
    }
}

/// A transfer or a write that is under way.
#[derive(Debug)]
pub struct BlockingCall {
    link: Link,
    size: usize,
    lanes: Lanes,
    pos: usize,
    end: usize,
    stage: BlockingStage,
}

impl View for BlockingCall {
    type V = BlockingState;

    closed spec fn view(&self) -> BlockingState {
        BlockingState {
            stage: self.stage,
            pending: closing_transmissions(
                self.link,
                self.lanes,
                chunks(self.pos as int, self.end as int, self.size as int),
            ),
        }
    }
}

impl BlockingCall {
    pub closed spec fn wf(&self) -> bool {
        &&& self.pos <= self.end
        &&& 0 < self.size <= MAX_TRANSFER_SIZE
    }

    pub closed spec fn device(&self) -> DeviceHandle {
        self.link.handle
    }

    pub(crate) fn new(link: Link, size: usize, lanes: Lanes, words: usize) -> (call: BlockingCall)
        requires
            0 < size <= MAX_TRANSFER_SIZE,
        ensures
            call.wf(),
            call.device() == link.handle,
            call@ == (BlockingState {
                stage: BlockingStage::Start,
                pending: closing_transmissions(
                    link,
                    lanes,
                    chunks(0, words as int, size as int),
                ),
            }),
    {
        BlockingCall { link, size, lanes, pos: 0, end: words, stage: BlockingStage::Start }
    }

    /// Moves the call on. `reply` is what came of the action that was last handed out; before
    /// the first one it is `CallReply::Start`.
    pub fn step(self, reply: CallReply) -> (res: (BlockingCall, BlockingAction))
        requires
            self.wf(),
            self@.stage.expects(reply),
        ensures
            res.0.wf(),
            res.0.device() == self.device(),
            (res.0@, res.1) == blocking_step(self.device(), self@, reply),
    {
        let BlockingCall { link, size, lanes, pos, end, stage } = self;
        let device = link.handle;
        match (stage, reply) {
            (BlockingStage::Start, _) => (
                BlockingCall { link, size, lanes, pos, end, stage: BlockingStage::Acquiring },
                BlockingAction::AcquireBus(device),
            ),
            (BlockingStage::Acquiring, CallReply::Acquired(status)) => {
                match Lock::new(device, status) {
                    Ok(lock) => BlockingCall::next(link, size, lanes, pos, end, lock, ESP_OK),
                    Err(e) => {
                        let result = if pos == end {
                            Ok(())
                        } else {
                            Err(to_spi_err(e))
                        };
                        (
                            BlockingCall {
                                link,
                                size,
                                lanes,
                                pos,
                                end,
                                stage: BlockingStage::Done,
                            },
                            BlockingAction::Return(result),
                        )
                    },
                }
            },
            (BlockingStage::Transmitting(lock), CallReply::Transmitted(status)) => {
                BlockingCall::next(link, size, lanes, pos, end, lock, status)
            },
            (BlockingStage::Releasing(result), _) => (
                BlockingCall { link, size, lanes, pos, end, stage: BlockingStage::Done },
                BlockingAction::Return(result),
            ),
            _ => vstd::pervasive::unreached(),
        }
    }

    fn next(
        link: Link,
        size: usize,
        lanes: Lanes,
        pos: usize,
        end: usize,
        lock: Lock,
        status: i32,
    ) -> (res: (BlockingCall, BlockingAction))
        requires
            pos <= end,
            0 < size <= MAX_TRANSFER_SIZE,
        ensures
            res.0.wf(),
            res.0.device() == link.handle,
            (res.0@, res.1) == blocking_next(
                closing_transmissions(link, lanes, chunks(pos as int, end as int, size as int)),
                lock,
                status,
            ),
    {
        match esp(status) {
            Err(e) => BlockingCall::leave(
                link,
                size,
                lanes,
                pos,
                end,
                lock,
                Err(to_spi_err(e)),
            ),
            Ok(_) => {
                if pos == end {
                    return BlockingCall::leave(link, size, lanes, pos, end, lock, Ok(()));
                }
                let len: usize = if end - pos < size {
                    end - pos
                } else {
                    size
                };
                let span = Span { start: pos, len };
                let after: usize = pos + len;
                let sent = transmit_chunk(link, lanes, span, after < end);
                proof {
                    let rest = chunks(after as int, end as int, size as int);
                    assert(chunks(pos as int, end as int, size as int) == seq![span] + rest);
                    assert(after < end <==> rest.len() > 0);
                    assert(closing_transmissions(link, lanes, seq![span] + rest).drop_first()
                        =~= closing_transmissions(link, lanes, rest));
                }
                (
                    BlockingCall {
                        link,
                        size,
                        lanes,
                        pos: after,
                        end,
                        stage: BlockingStage::Transmitting(lock),
                    },
                    BlockingAction::Transmit(sent),
                )
            },
        }
    }

    fn leave(
        link: Link,
        size: usize,
        lanes: Lanes,
        pos: usize,
        end: usize,
        lock: Lock,
        result: Result<(), SpiError>,
    ) -> (res: (BlockingCall, BlockingAction))
        requires
            pos <= end,
            0 < size <= MAX_TRANSFER_SIZE,
        ensures
            res.0.wf(),
            res.0.device() == link.handle,
            (res.0@, res.1) == blocking_leave(
                closing_transmissions(link, lanes, chunks(pos as int, end as int, size as int)),
                lock,
                result,
            ),
    {
        (
            BlockingCall { link, size, lanes, pos, end, stage: BlockingStage::Releasing(result) },
            BlockingAction::ReleaseBus(lock.device),
        )
    }
}

} // verus!
