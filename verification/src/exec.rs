//! A list of operations, performed one after the other within one transaction.

use vstd::prelude::*;

use crate::bus::{BusAction, BusCall, SpiBusMasterDriver};
use crate::call::{into_spi_result, spi_result, CallReply};
use crate::chunk::chunks;
use crate::error::{other_error, to_spi_err, SpiError};
use crate::sys::{esp, esp_result, DeviceHandle, ESP_OK};
use crate::transaction::{
    lock_result, transaction_result, Action, BusTransaction, Lock, Reply, Stage,
};
use crate::transmission::{held_transmissions, Lanes, Link, Transmission};

verus! {

/// One operation, by the number of bytes in its buffer.
#[derive(Copy, Clone, Debug, PartialEq, Eq, Structural)]
pub enum Operation {
    /// Send the buffer.
    Write(usize),
    /// Send the buffer and receive as many bytes into it.
    Transfer(usize),
}

/// What a call wants next.
#[derive(Debug, PartialEq, Eq)]
pub enum ExecAction {
    /// Acquire the bus for this device, however long it takes.
    AcquireBus(DeviceHandle),
    /// Perform this transmission on the buffer of the operation with this index.
    Transmit(usize, Transmission),
    /// Perform this transmission, which has no buffer.
    Finish(Transmission),
    /// Release the bus that was acquired for this device.
    ReleaseBus(DeviceHandle),
    /// The call returns this.
    Return(Result<(), SpiError>),
}

/// A call: the stage of its transaction, and the transmissions that it has not handed out yet,
/// each with the index of its operation.
pub struct ExecState {
    pub stage: Stage<(), SpiError>,
    pub pending: Seq<(usize, Transmission)>,
}

/// The transmissions of one operation.
pub open spec fn operation_transmissions(link: Link, size: int, operation: Operation) -> Seq<
    Transmission,
> {
    match operation {
        Operation::Write(words) => held_transmissions(
            link,
            Lanes::Write,
            chunks(0, words as int, size),
        ),
        Operation::Transfer(words) => held_transmissions(
            link,
            Lanes::Both,
            chunks(0, words as int, size),
        ),
    }
}

/// Transmissions, each with the index of the operation that they belong to.
pub open spec fn tagged(index: int, sent: Seq<Transmission>) -> Seq<(usize, Transmission)> {
    Seq::new(sent.len(), |i: int| (index as usize, sent[i]))
}

/// The transmissions of the operations from index `from` on.
pub open spec fn exec_transmissions(
    link: Link,
    size: int,
    operations: Seq<Operation>,
    from: int,
) -> Seq<(usize, Transmission)>
    decreases operations.len() - from,
{
    if from < 0 || from >= operations.len() {
        seq![]
    } else {
        tagged(from, operation_transmissions(link, size, operations[from])) + exec_transmissions(
            link,
            size,
            operations,
            from + 1,
        )
    }
}

/// A call that has not begun.
pub open spec fn exec_start(link: Link, size: int, operations: Seq<Operation>) -> ExecState {
    ExecState {
        stage: Stage::Start,
        pending: exec_transmissions(link, size, operations, 0),
    }
}

impl ExecState {
    /// Whether a reply is one to the action that led to this state.
    pub open spec fn expects(self, reply: CallReply) -> bool {
        match self.stage {
            Stage::Start => reply is Start,
            Stage::Acquiring => reply is Acquired,
            Stage::Running(_) => reply is Transmitted,
            Stage::Finishing(_, _) => reply is Transmitted,
            Stage::Releasing(_) => reply is Released,
            Stage::Done => false,
        }
    }
}

/// The operations are over: CS is let go of.
pub open spec fn exec_finish(
    bus: SpiBusMasterDriver,
    lock: Lock,
    pending: Seq<(usize, Transmission)>,
    ran: Result<(), SpiError>,
) -> (ExecState, ExecAction) {
    (
        ExecState { stage: Stage::Finishing(lock, ran), pending },
        ExecAction::Finish(bus.finish_transmission()),
    )
}

/// The next transmission of the operations, or their end.
pub open spec fn exec_next(
    bus: SpiBusMasterDriver,
    lock: Lock,
    pending: Seq<(usize, Transmission)>,
) -> (ExecState, ExecAction) {
    if pending.len() == 0 {
        exec_finish(bus, lock, pending, Ok(()))
    } else {
        (
            ExecState { stage: Stage::Running(lock), pending: pending.drop_first() },
            ExecAction::Transmit(pending[0].0, pending[0].1),
        )
    }
}

/// What a call does in a state when a reply comes in.
pub open spec fn exec_step(bus: SpiBusMasterDriver, state: ExecState, reply: CallReply) -> (
    ExecState,
    ExecAction,
)
    recommends
        state.expects(reply),
{
    let device = bus.link().handle;
    let pending = state.pending;
    match state.stage {
        Stage::Start => (
            ExecState { stage: Stage::Acquiring, pending },
            ExecAction::AcquireBus(device),
        ),
        Stage::Acquiring => match lock_result(device, reply->Acquired_0) {
            Ok(lock) => exec_next(bus, lock, pending),
            Err(e) => (
                ExecState { stage: Stage::Done, pending },
                ExecAction::Return(Err(other_error(e))),
            ),
        },
        Stage::Running(lock) => match esp_result(reply->Transmitted_0) {
            Ok(_) => exec_next(bus, lock, pending),
            Err(e) => exec_finish(bus, lock, pending, Err(other_error(e))),
        },
        Stage::Finishing(lock, ran) => (
            ExecState {
                stage: Stage::Releasing(
                    transaction_result(ran, esp_result(reply->Transmitted_0), Ok(())),
                ),
                pending,
            },
            ExecAction::ReleaseBus(lock.device),
        ),
        Stage::Releasing(result) => (
            ExecState { stage: Stage::Done, pending },
            ExecAction::Return(spi_result(result)),
        ),
        Stage::Done => (state, ExecAction::AcquireBus(device)),
    }
}

/// A list of operations that is being performed.
#[derive(Debug)]
pub struct ExecCall {
    transaction: BusTransaction<(), SpiError>,
    operations: Vec<Operation>,
    index: usize,
    call: Option<BusCall>,
}

/// The transmissions that are left when operation `index` is the next to begin and `call` is
/// what is left of the one before it.
spec fn exec_pending(
    bus: SpiBusMasterDriver,
    operations: Seq<Operation>,
    index: int,
    call: Option<BusCall>,
) -> Seq<(usize, Transmission)> {
    let later = exec_transmissions(bus.link(), bus.trans_len(), operations, index);
    match call {
        Some(call) => tagged(index - 1, call@) + later,
        None => later,
    }
}

impl View for ExecCall {
    type V = ExecState;

    closed spec fn view(&self) -> ExecState {
        ExecState {
            stage: self.transaction.stage(),
            pending: exec_pending(
                self.transaction.bus(),
                self.operations@,
                self.index as int,
                self.call,
            ),
        }
    }
}

impl ExecCall {
    pub closed spec fn wf(&self) -> bool {
        &&& self.transaction.bus().wf()
        &&& self.index <= self.operations.len()
        &&& self.call matches Some(call) ==> call.wf() && self.index > 0
        &&& self.transaction.stage() is Running ==> self.transaction.bus().trans_len() > 0
    }

    pub closed spec fn bus(&self) -> SpiBusMasterDriver {
        self.transaction.bus()
    }

    pub closed spec fn operations(&self) -> Seq<Operation> {
        self.operations@
    }

    pub(crate) fn new(transaction: BusTransaction<(), SpiError>, operations: Vec<Operation>) -> (call:
        ExecCall)
        requires
            transaction.bus().wf(),
            transaction.stage() is Start,
        ensures
            call.wf(),
            call.bus() == transaction.bus(),
            call.operations() == operations@,
            call@ == exec_start(
                transaction.bus().link(),
                transaction.bus().trans_len(),
                operations@,
            ),
    {
        ExecCall { transaction, operations, index: 0, call: None }
    }

    /// Moves the call on. `reply` is what came of the action that was last handed out; before
    /// the first one it is `CallReply::Start`.
    ///
    /// A bus that transmits no bytes at all can perform no operation.
    pub fn step(self, reply: CallReply) -> (res: (ExecCall, ExecAction))
        requires
            self.wf(),
            self@.expects(reply),
            reply matches CallReply::Acquired(status) && status == ESP_OK
                && self.operations().len() > 0 ==> self.bus().trans_len() > 0,
        ensures
            res.0.wf(),
            res.0.bus() == self.bus(),
            res.0.operations() == self.operations(),
            (res.0@, res.1) == exec_step(self.bus(), self@, reply),
    {
        let ExecCall { transaction, operations, index, call } = self;
        match reply {
            CallReply::Start => ExecCall::forward(
                transaction,
                operations,
                index,
                call,
                Reply::Start,
            ),
            CallReply::Acquired(status) => {
                let (transaction, action) = transaction.step(Reply::Acquired(status));
                match action {
                    Action::Return(result) => (
                        ExecCall { transaction, operations, index, call },
                        ExecAction::Return(into_spi_result(result)),
                    ),
                    _ => ExecCall::next(transaction, operations, index, call),
                }
            },
            CallReply::Transmitted(status) => {
                let reply = if transaction.is_running() {
                    match esp(status) {
                        Ok(_) => {
                            return ExecCall::next(transaction, operations, index, call);
                        },
                        Err(e) => Reply::Ran(Err(to_spi_err(e))),
                    }
                } else {
                    Reply::Transmitted(status)
                };
                ExecCall::forward(transaction, operations, index, call, reply)
            },
            CallReply::Released => ExecCall::forward(
                transaction,
                operations,
                index,
                call,
                Reply::Released,
            ),
        }
    }

    /// Steps the transaction where its body is not about to run.
    fn forward(
        transaction: BusTransaction<(), SpiError>,
        operations: Vec<Operation>,
        index: usize,
        call: Option<BusCall>,
        reply: Reply<(), SpiError>,
    ) -> (res: (ExecCall, ExecAction))
        requires
            transaction.bus().wf(),
            transaction.stage().expects(reply),
            !(reply is Acquired),
            index <= operations.len(),
            call matches Some(call) ==> call.wf() && index > 0,
        ensures
            res.0.wf(),
            res.0.bus() == transaction.bus(),
            res.0.operations() == operations@,
            ({
                let bus = transaction.bus();
                let pending = exec_pending(bus, operations@, index as int, call);
                let state = ExecState { stage: transaction.stage(), pending };
                (res.0@, res.1) == match reply {
                    Reply::Ran(ran) => exec_finish(bus, state.stage->Running_0, pending, ran),
                    Reply::Transmitted(status) => exec_step(
                        bus,
                        state,
                        CallReply::Transmitted(status),
                    ),
                    Reply::Released => exec_step(bus, state, CallReply::Released),
                    _ => exec_step(bus, state, CallReply::Start),
                }
            }),
    {
        let (transaction, action) = transaction.step(reply);
        let action = match action {
            Action::AcquireBus(device) => ExecAction::AcquireBus(device),
            Action::Transmit(sent) => ExecAction::Finish(sent),
            Action::ReleaseBus(device) => ExecAction::ReleaseBus(device),
            Action::Return(result) => ExecAction::Return(into_spi_result(result)),
            Action::Run(_) => vstd::pervasive::unreached(),
        };
        (ExecCall { transaction, operations, index, call }, action)
    }

    /// Hands out the next transmission of the operations, or ends them.
    fn next(
        transaction: BusTransaction<(), SpiError>,
        operations: Vec<Operation>,
        first: usize,
        unfinished: Option<BusCall>,
    ) -> (res: (ExecCall, ExecAction))
        requires
            transaction.bus().wf(),
            transaction.stage() is Running,
            first <= operations.len(),
            unfinished matches Some(call) ==> call.wf() && first > 0,
            operations.len() > 0 ==> transaction.bus().trans_len() > 0,
        ensures
            res.0.wf(),
            res.0.bus() == transaction.bus(),
            res.0.operations() == operations@,
            (res.0@, res.1) == exec_next(
                transaction.bus(),
                transaction.stage()->Running_0,
                exec_pending(transaction.bus(), operations@, first as int, unfinished),
            ),
    {
        let mut bus = transaction.current_bus();
        let mut index: usize = first;
        let mut call: Option<BusCall> = unfinished;
        let ghost pending = exec_pending(bus, operations@, first as int, unfinished);
        loop
            invariant
                bus.wf(),
                bus == transaction.bus(),
                transaction.stage() is Running,
                operations.len() > 0 ==> bus.trans_len() > 0,
                index <= operations.len(),
                call matches Some(current) ==> current.wf() && index > 0,
                pending == exec_pending(bus, operations@, index as int, call),
                pending == exec_pending(
                    transaction.bus(),
                    operations@,
                    first as int,
                    unfinished,
                ),
            decreases
                    operations.len() - index,
                    (if call is Some {
                        1int
                    } else {
                        0int
                    }),
        {
            match call {
                Some(current) => {
                    let (rest, action) = current.step(ESP_OK);
                    match action {
                        BusAction::Transmit(sent) => {
                            proof {
                                assert(tagged(index - 1, current@) =~= seq![
                                    ((index - 1) as usize, sent),
                                ] + tagged(index - 1, rest@));
                                assert(exec_pending(
                                    bus,
                                    operations@,
                                    index as int,
                                    Some(rest),
                                ) =~= pending.drop_first());
                            }
                            return (
                                ExecCall { transaction, operations, index, call: Some(rest) },
                                ExecAction::Transmit(index - 1, sent),
                            );
                        },
                        BusAction::Return(_) => {
                            assert(tagged(index - 1, current@) =~= seq![]);
                            assert(exec_pending(bus, operations@, index as int, None) =~= pending);
                            call = None;
                        },
                    }
                },
                None => {
                    if index == operations.len() {
                        return ExecCall::forward(
                            transaction,
                            operations,
                            index,
                            None,
                            Reply::Ran(Ok(())),
                        );
                    }
                    let begun = match operations[index] {
                        Operation::Write(words) => bus.write(words),
                        Operation::Transfer(words) => bus.transfer_in_place(words),
                    };
                    call = Some(begun);
                    index = index + 1;
                },
            }
        }
    }
}

} // verus!
