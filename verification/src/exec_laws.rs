//! What a list of operations in one transaction promises as a whole.

use vstd::prelude::*;

use crate::bus::SpiBusMasterDriver;
use crate::bus_laws::law_transmissions_bounded;
use crate::call::CallReply;
use crate::error::{other_error, SpiError};
use crate::exec::{
    exec_start, exec_step, exec_transmissions, operation_transmissions, tagged, ExecAction,
    ExecState, Operation,
};
use crate::sys::{EspError, ESP_OK};
use crate::transaction::{Lock, Stage};
use crate::transmission::{transmission_flags, Lanes, Link, Transmission};

verus! {

/// The actions of a call from a state on, when `reply` comes in first and `statuses` are those of
/// the actions that have one. Without enough of them the run has no end.
pub open spec fn exec_run(
    bus: SpiBusMasterDriver,
    state: ExecState,
    reply: CallReply,
    statuses: Seq<i32>,
) -> Seq<ExecAction>
    decreases
            statuses.len(),
            (if reply is Released {
                0int
            } else {
                1int
            }),
{
    let (next, action) = exec_step(bus, state, reply);
    match action {
        ExecAction::AcquireBus(_) => if statuses.len() == 0 {
            seq![action]
        } else {
            seq![action] + exec_run(
                bus,
                next,
                CallReply::Acquired(statuses[0]),
                statuses.drop_first(),
            )
        },
        ExecAction::Transmit(_, _) => if statuses.len() == 0 {
            seq![action]
        } else {
            seq![action] + exec_run(
                bus,
                next,
                CallReply::Transmitted(statuses[0]),
                statuses.drop_first(),
            )
        },
        ExecAction::Finish(_) => if statuses.len() == 0 {
            seq![action]
        } else {
            seq![action] + exec_run(
                bus,
                next,
                CallReply::Transmitted(statuses[0]),
                statuses.drop_first(),
            )
        },
        ExecAction::ReleaseBus(_) => if reply is Released {
            seq![action]
        } else {
            seq![action] + exec_run(bus, next, CallReply::Released, statuses)
        },
        ExecAction::Return(_) => seq![action],
    }
}

/// The actions that perform these transmissions.
pub open spec fn exec_transmits(sent: Seq<(usize, Transmission)>) -> Seq<ExecAction> {
    Seq::new(sent.len(), |i: int| ExecAction::Transmit(sent[i].0, sent[i].1))
}

/// The actions that end a call which has the bus: CS is let go of, the bus is released, and the
/// call returns what the operations came to, or else what the last transmission came to.
pub open spec fn exec_ending(
    bus: SpiBusMasterDriver,
    ran: Result<(), SpiError>,
    finished: i32,
) -> Seq<ExecAction> {
    seq![
        ExecAction::Finish(bus.finish_transmission()),
        ExecAction::ReleaseBus(bus.link().handle),
        ExecAction::Return(
            if ran is Ok && finished != ESP_OK {
                Err(other_error(EspError { code: finished }))
            } else {
                ran
            },
        ),
    ]
}

/// A call whose bus cannot be acquired transmits nothing, releases nothing, and returns the
/// error.
pub proof fn law_exec_without_bus(
    bus: SpiBusMasterDriver,
    operations: Seq<Operation>,
    acquired: i32,
)
    requires
        acquired != ESP_OK,
    ensures
        exec_run(
            bus,
            exec_start(bus.link(), bus.trans_len(), operations),
            CallReply::Start,
            seq![acquired],
        ) == seq![
            ExecAction::AcquireBus(bus.link().handle),
            ExecAction::Return(Err(other_error(EspError { code: acquired }))),
        ],
{
    reveal_with_fuel(exec_run, 2);
    assert(seq![acquired].drop_first() =~= seq![]);
    assert(seq![ExecAction::AcquireBus(bus.link().handle)] + seq![
        ExecAction::Return(Err(other_error(EspError { code: acquired }))),
    ] =~= seq![
        ExecAction::AcquireBus(bus.link().handle),
        ExecAction::Return(Err(other_error(EspError { code: acquired }))),
    ]);
}

/// Where the last transmission of the operations failed, or none is left, the call comes to its
/// end.
proof fn lemma_exec_ending(
    bus: SpiBusMasterDriver,
    pending: Seq<(usize, Transmission)>,
    status: i32,
    statuses: Seq<i32>,
)
    requires
        status != ESP_OK || pending.len() == 0,
        statuses.len() > 0,
    ensures
        exec_run(
            bus,
            ExecState { stage: Stage::Running(Lock { device: bus.link().handle }), pending },
            CallReply::Transmitted(status),
            statuses,
        ) == exec_ending(
            bus,
            if status == ESP_OK {
                Ok(())
            } else {
                Err(other_error(EspError { code: status }))
            },
            statuses[0],
        ),
{
    reveal_with_fuel(exec_run, 3);
    let ran = if status == ESP_OK {
        Ok(())
    } else {
        Err(other_error(EspError { code: status }))
    };
    let end = exec_ending(bus, ran, statuses[0]);
    assert(end =~= seq![end[0]] + (seq![end[1]] + seq![end[2]]));
}

proof fn lemma_exec_running(
    bus: SpiBusMasterDriver,
    pending: Seq<(usize, Transmission)>,
    statuses: Seq<i32>,
    k: int,
)
    requires
        0 <= k <= pending.len() < statuses.len(),
        forall|i: int| 0 <= i < k ==> statuses[i] == ESP_OK,
        k < pending.len() ==> statuses[k] != ESP_OK,
    ensures
        exec_run(
            bus,
            ExecState { stage: Stage::Running(Lock { device: bus.link().handle }), pending },
            CallReply::Transmitted(ESP_OK),
            statuses,
        ) == if k < pending.len() {
            exec_transmits(pending.take(k + 1)) + exec_ending(
                bus,
                Err(other_error(EspError { code: statuses[k] })),
                statuses[k + 1],
            )
        } else {
            exec_transmits(pending) + exec_ending(bus, Ok(()), statuses[k])
        },
    decreases pending.len(),
{
    if pending.len() == 0 {
        lemma_exec_ending(bus, pending, ESP_OK, statuses);
        let end = exec_ending(bus, Ok(()), statuses[0]);
        assert(exec_transmits(pending) + end =~= end);
    } else {
        let rest = pending.drop_first();
        let later = statuses.drop_first();
        let first = seq![ExecAction::Transmit(pending[0].0, pending[0].1)];
        if k == 0 {
            lemma_exec_ending(bus, rest, statuses[0], later);
            assert(exec_transmits(pending.take(1)) =~= first);
        } else {
            lemma_exec_running(bus, rest, later, k - 1);
            if k < pending.len() {
                let end = exec_ending(
                    bus,
                    Err(other_error(EspError { code: statuses[k] })),
                    statuses[k + 1],
                );
                assert(first + (exec_transmits(rest.take(k)) + end) =~= exec_transmits(
                    pending.take(k + 1),
                ) + end);
            } else {
                let end = exec_ending(bus, Ok(()), statuses[k]);
                assert(first + (exec_transmits(rest) + end) =~= exec_transmits(pending) + end);
            }
        }
    }
}

/// A call that gets the bus performs the transmissions of its operations in order up to the first
/// one that fails; then, failure or not, it lets go of CS and releases the bus, each once; and it
/// returns the first failure, or success where there is none. `k` is the index of the failing
/// transmission, or the number of the transmissions; the status behind it is that of letting go
/// of CS.
pub proof fn law_exec_order(
    bus: SpiBusMasterDriver,
    operations: Seq<Operation>,
    statuses: Seq<i32>,
    k: int,
)
    requires
        ({
            let pending = exec_start(bus.link(), bus.trans_len(), operations).pending;
            &&& 0 <= k <= pending.len() < statuses.len()
            &&& forall|i: int| 0 <= i < k ==> statuses[i] == ESP_OK
            &&& k < pending.len() ==> statuses[k] != ESP_OK
        }),
    ensures
        ({
            let pending = exec_start(bus.link(), bus.trans_len(), operations).pending;
            exec_run(
                bus,
                exec_start(bus.link(), bus.trans_len(), operations),
                CallReply::Start,
                seq![ESP_OK] + statuses,
            ) == seq![ExecAction::AcquireBus(bus.link().handle)] + (if k < pending.len() {
                exec_transmits(pending.take(k + 1)) + exec_ending(
                    bus,
                    Err(other_error(EspError { code: statuses[k] })),
                    statuses[k + 1],
                )
            } else {
                exec_transmits(pending) + exec_ending(bus, Ok(()), statuses[k])
            })
        }),
{
    let start = exec_start(bus.link(), bus.trans_len(), operations);
    let pending = start.pending;
    lemma_exec_running(bus, pending, statuses, k);
    let (s1, a1) = exec_step(bus, start, CallReply::Start);
    let all = seq![ESP_OK] + statuses;
    assert(all.drop_first() =~= statuses);
    let held = ExecState { stage: Stage::Running(Lock { device: bus.link().handle }), pending };
    // Once the bus is acquired, the call goes on as after a transmission that succeeded.
    assert(exec_step(bus, s1, CallReply::Acquired(ESP_OK)) == exec_step(
        bus,
        held,
        CallReply::Transmitted(ESP_OK),
    ));
    assert(exec_run(bus, s1, CallReply::Acquired(ESP_OK), statuses) == exec_run(
        bus,
        held,
        CallReply::Transmitted(ESP_OK),
        statuses,
    ));
}

/// The transmissions of the operation with this index, out of a list of tagged ones.
pub open spec fn of_operation(sent: Seq<(usize, Transmission)>, index: int) -> Seq<Transmission>
    decreases sent.len(),
{
    if sent.len() == 0 {
        seq![]
    } else if sent[0].0 == index {
        seq![sent[0].1] + of_operation(sent.drop_first(), index)
    } else {
        of_operation(sent.drop_first(), index)
    }
}

proof fn lemma_of_operation_append(
    a: Seq<(usize, Transmission)>,
    b: Seq<(usize, Transmission)>,
    index: int,
)
    ensures
        of_operation(a + b, index) == of_operation(a, index) + of_operation(b, index),
    decreases a.len(),
{
    if a.len() == 0 {
        assert(a + b =~= b);
        assert(of_operation(a, index) + of_operation(b, index) =~= of_operation(b, index));
    } else {
        lemma_of_operation_append(a.drop_first(), b, index);
        assert((a + b).drop_first() =~= a.drop_first() + b);
        assert(of_operation(a + b, index) =~= of_operation(a, index) + of_operation(b, index));
    }
}

proof fn lemma_of_operation_tagged(at: int, sent: Seq<Transmission>, index: int)
    requires
        0 <= at <= usize::MAX,
    ensures
        of_operation(tagged(at, sent), index) == if at == index {
            sent
        } else {
            seq![]
        },
    decreases sent.len(),
{
    if sent.len() == 0 {
        assert(sent =~= seq![]);
    } else {
        lemma_of_operation_tagged(at, sent.drop_first(), index);
        assert(tagged(at, sent).drop_first() =~= tagged(at, sent.drop_first()));
        assert(seq![sent[0]] + sent.drop_first() =~= sent);
    }
}

proof fn lemma_operations_from(
    link: Link,
    size: int,
    operations: Seq<Operation>,
    from: int,
    index: int,
)
    requires
        0 <= from <= operations.len() <= usize::MAX,
        0 <= index < operations.len(),
    ensures
        of_operation(exec_transmissions(link, size, operations, from), index) == if from
            <= index {
            operation_transmissions(link, size, operations[index])
        } else {
            seq![]
        },
        forall|i: int, j: int|
            0 <= i < j < exec_transmissions(link, size, operations, from).len() ==> (
            #[trigger] exec_transmissions(link, size, operations, from)[i]).0 <= (
            #[trigger] exec_transmissions(link, size, operations, from)[j]).0,
        forall|i: int|
            0 <= i < exec_transmissions(link, size, operations, from).len() ==> from <= (
            #[trigger] exec_transmissions(link, size, operations, from)[i]).0 < operations.len(),
    decreases operations.len() - from,
{
    if from < operations.len() {
        lemma_operations_from(link, size, operations, from + 1, index);
        let here = operation_transmissions(link, size, operations[from]);
        let later = exec_transmissions(link, size, operations, from + 1);
        lemma_of_operation_append(tagged(from, here), later, index);
        lemma_of_operation_tagged(from, here, index);
        if from <= index {
            assert(seq![] + of_operation(later, index) =~= of_operation(later, index));
            assert(here + Seq::<Transmission>::empty() =~= here);
        }
    }
}

proof fn lemma_exec_bounded_from(link: Link, size: int, operations: Seq<Operation>, from: int)
    requires
        0 <= from <= operations.len(),
        0 < size,
        size * 8 <= usize::MAX,
    ensures
        ({
            let sent = exec_transmissions(link, size, operations, from);
            forall|i: int|
                0 <= i < sent.len() ==> {
                    &&& 0 < (#[trigger] sent[i]).1.length <= 8 * size
                    &&& sent[i].1.flags == transmission_flags(link, true)
                    &&& sent[i].1.handle == link.handle
                }
        }),
    decreases operations.len() - from,
{
    if from < operations.len() {
        let here = operation_transmissions(link, size, operations[from]);
        match operations[from] {
            Operation::Write(words) => {
                law_transmissions_bounded(link, Lanes::Write, 0, words as int, size);
            },
            Operation::Transfer(words) => {
                law_transmissions_bounded(link, Lanes::Both, 0, words as int, size);
            },
        }
        lemma_exec_bounded_from(link, size, operations, from + 1);
        let later = exec_transmissions(link, size, operations, from + 1);
        let sent = exec_transmissions(link, size, operations, from);
        assert forall|i: int| 0 <= i < sent.len() implies {
            &&& 0 < (#[trigger] sent[i]).1.length <= 8 * size
            &&& sent[i].1.flags == transmission_flags(link, true)
            &&& sent[i].1.handle == link.handle
        } by {
            if i < here.len() {
                assert(sent[i].1 == here[i]);
            } else {
                assert(sent[i] == later[i - here.len()]);
            }
        }
    }
}

/// No transmission of a whole call is empty or longer than the bus allows, and each of them keeps
/// CS active.
pub proof fn law_exec_bounded(link: Link, size: int, operations: Seq<Operation>)
    requires
        0 < size,
        size * 8 <= usize::MAX,
    ensures
        ({
            let sent = exec_start(link, size, operations).pending;
            forall|i: int|
                0 <= i < sent.len() ==> {
                    &&& 0 < (#[trigger] sent[i]).1.length <= 8 * size
                    &&& sent[i].1.flags == transmission_flags(link, true)
                    &&& sent[i].1.handle == link.handle
                }
        }),
{
    lemma_exec_bounded_from(link, size, operations, 0);
}

/// Where there is no operation, nothing is transmitted for one.
pub proof fn law_no_operations(link: Link, size: int, operations: Seq<Operation>)
    requires
        operations.len() == 0,
    ensures
        exec_start(link, size, operations).pending.len() == 0,
{
}

/// The operations are performed one after the other, each of them with exactly the transmissions
/// that it has on its own, and nothing is transmitted for anything else.
pub proof fn law_operations_in_order(
    link: Link,
    size: int,
    operations: Seq<Operation>,
    index: int,
)
    requires
        0 <= index < operations.len() <= usize::MAX,
    ensures
        ({
            let sent = exec_start(link, size, operations).pending;
            &&& of_operation(sent, index) == operation_transmissions(
                link,
                size,
                operations[index],
            )
            &&& forall|i: int, j: int|
                0 <= i < j < sent.len() ==> (#[trigger] sent[i]).0 <= (#[trigger] sent[j]).0
            &&& forall|i: int| 0 <= i < sent.len() ==> (#[trigger] sent[i]).0 < operations.len()
        }),
{
    lemma_operations_from(link, size, operations, 0, index);
}

/// Whatever came of an action, a call takes it: each stage expects every reply to the action that
/// led to it.
pub proof fn law_exec_takes_every_reply(state: ExecState, status: i32)
    ensures
        state.stage is Start ==> state.expects(CallReply::Start),
        state.stage is Acquiring ==> state.expects(CallReply::Acquired(status)),
        state.stage is Running ==> state.expects(CallReply::Transmitted(status)),
        state.stage is Finishing ==> state.expects(CallReply::Transmitted(status)),
        state.stage is Releasing ==> state.expects(CallReply::Released),
{
}

} // verus!
