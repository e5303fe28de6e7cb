//! What a write from a source promises as a whole.

use vstd::prelude::*;

use crate::bus::SpiBusMasterDriver;
use crate::bus_laws::{
    law_transmissions_bounded, law_write_sends_all, lemma_gather_append, lemma_spans_append,
};
use crate::chunk::gather;
use crate::error::{other_error, SpiError};
use crate::sys::{esp_result, EspError, ESP_OK};
use crate::transaction::{Lock, Stage};
use crate::transmission::{transmission_flags, tx_spans, Lanes, Transmission};
use crate::wire::{cut, held, in_step, lemma_held_cut, lemma_wire_cut, wire};
use crate::write_iter::{
    write_iter_start, write_iter_step, write_iter_transmissions, WriteIterAction, WriteIterReply,
    WriteIterState,
};

verus! {

/// The state of a call after these replies came in.
pub open spec fn state_after(
    bus: SpiBusMasterDriver,
    capacity: int,
    state: WriteIterState,
    replies: Seq<WriteIterReply>,
) -> WriteIterState
    decreases replies.len(),
{
    if replies.len() == 0 {
        state
    } else {
        state_after(
            bus,
            capacity,
            write_iter_step(bus, capacity, state, replies[0]).0,
            replies.drop_first(),
        )
    }
}

/// Whether each of these replies is one to the action before it, and none is a failure.
pub open spec fn succeeds(
    bus: SpiBusMasterDriver,
    capacity: int,
    state: WriteIterState,
    replies: Seq<WriteIterReply>,
) -> bool
    decreases replies.len(),
{
    replies.len() > 0 ==> {
        &&& state.expects(replies[0])
        &&& replies[0] matches WriteIterReply::Acquired(status) ==> status == ESP_OK
        &&& replies[0] matches WriteIterReply::Transmitted(status) ==> status == ESP_OK
        &&& succeeds(
            bus,
            capacity,
            write_iter_step(bus, capacity, state, replies[0]).0,
            replies.drop_first(),
        )
    }
}

/// The byte that a reply brings, if any.
pub open spec fn pulled_by(reply: WriteIterReply) -> Seq<u8> {
    match reply {
        WriteIterReply::Word(Some(word)) => seq![word],
        _ => seq![],
    }
}

/// The bytes that were pulled from the source, in order.
pub open spec fn pulled(replies: Seq<WriteIterReply>) -> Seq<u8>
    decreases replies.len(),
{
    if replies.len() == 0 {
        seq![]
    } else {
        pulled_by(replies[0]) + pulled(replies.drop_first())
    }
}

/// The bytes that an action sends from the buffer of the state that it led to.
pub open spec fn sent_by(state: WriteIterState, action: WriteIterAction) -> Seq<u8> {
    match action {
        WriteIterAction::Transmit(sent) => gather(state.collected, tx_spans(seq![sent])),
        _ => seq![],
    }
}

/// The bytes that a call sends as these replies come in, in order.
pub open spec fn sent(
    bus: SpiBusMasterDriver,
    capacity: int,
    state: WriteIterState,
    replies: Seq<WriteIterReply>,
) -> Seq<u8>
    decreases replies.len(),
{
    if replies.len() == 0 {
        seq![]
    } else {
        let (next, action) = write_iter_step(bus, capacity, state, replies[0]);
        sent_by(next, action) + sent(bus, capacity, next, replies.drop_first())
    }
}

/// The bytes that a call has pulled and not yet sent.
pub open spec fn unsent(state: WriteIterState) -> Seq<u8> {
    if state.stage is Running {
        match state.writing {
            Some(pending) => gather(state.collected, tx_spans(pending)),
            None => state.collected,
        }
    } else {
        seq![]
    }
}

/// The buffer never holds more than it has room for, and a call that asks for a byte has room for
/// it.
pub open spec fn within_capacity(state: WriteIterState, capacity: int) -> bool {
    &&& state.collected.len() <= capacity
    &&& state.stage is Running && state.writing is None ==> state.collected.len() < capacity
}

/// Every step keeps the buffer within its capacity.
pub proof fn law_buffer_bounded(
    bus: SpiBusMasterDriver,
    capacity: int,
    state: WriteIterState,
    reply: WriteIterReply,
)
    requires
        within_capacity(state, capacity),
        state.expects(reply),
    ensures
        within_capacity(write_iter_step(bus, capacity, state, reply).0, capacity),
{
}

/// The bus that a call holds, if it holds one, is the one that it acquired for its device.
pub open spec fn holds_own_bus(bus: SpiBusMasterDriver, state: WriteIterState) -> bool {
    match state.stage {
        Stage::Running(lock) => lock.device == bus.link().handle,
        Stage::Finishing(lock, _) => lock.device == bus.link().handle,
        _ => true,
    }
}

/// Every step keeps to the bus that was acquired.
pub proof fn law_bus_kept(
    bus: SpiBusMasterDriver,
    capacity: int,
    state: WriteIterState,
    reply: WriteIterReply,
)
    requires
        holds_own_bus(bus, state),
        state.expects(reply),
    ensures
        holds_own_bus(bus, write_iter_step(bus, capacity, state, reply).0),
{
}

/// No step loses a byte, sends one twice, or sends one out of order, as long as nothing fails:
/// what was unsent and what comes in is what is sent and what is unsent then.
pub proof fn law_step_conserves(
    bus: SpiBusMasterDriver,
    capacity: int,
    state: WriteIterState,
    reply: WriteIterReply,
)
    requires
        0 < bus.trans_len(),
        capacity <= usize::MAX,
        within_capacity(state, capacity),
        state.expects(reply),
        reply matches WriteIterReply::Acquired(status) ==> status == ESP_OK,
        reply matches WriteIterReply::Transmitted(status) ==> status == ESP_OK,
    ensures
        ({
            let (next, action) = write_iter_step(bus, capacity, state, reply);
            unsent(state) + pulled_by(reply) == sent_by(next, action) + unsent(next)
        }),
{
    let (next, action) = write_iter_step(bus, capacity, state, reply);
    if state.stage is Running {
        let collected = state.collected + pulled_by(reply);
        match reply {
            WriteIterReply::Word(Some(word)) => {
                assert(collected =~= state.collected.push(word));
            },
            _ => {
                assert(collected =~= state.collected);
            },
        }
        if state.writing is Some {
            let pending = state.writing->0;
            if pending.len() > 0 {
                lemma_first_sent(state.collected, pending);
            }
            assert(unsent(state) + pulled_by(reply) =~= unsent(state));
        } else if state.begins_write(capacity, reply) {
            let pending = write_iter_transmissions(bus, collected);
            law_write_sends_all(bus.link(), collected, bus.trans_len());
            lemma_some_chunk(bus, collected);
            lemma_first_sent(collected, pending);
        }
    }
    assert(unsent(state) + pulled_by(reply) =~= sent_by(next, action) + unsent(next));
}

proof fn lemma_some_chunk(bus: SpiBusMasterDriver, collected: Seq<u8>)
    requires
        0 < bus.trans_len(),
        0 < collected.len(),
    ensures
        write_iter_transmissions(bus, collected).len() > 0,
{
}

proof fn lemma_first_sent(collected: Seq<u8>, pending: Seq<Transmission>)
    requires
        pending.len() > 0,
    ensures
        gather(collected, tx_spans(pending)) == gather(collected, tx_spans(seq![pending[0]]))
            + gather(collected, tx_spans(pending.drop_first())),
{
    assert(pending =~= seq![pending[0]] + pending.drop_first());
    lemma_spans_append(seq![pending[0]], pending.drop_first());
    lemma_gather_append(
        collected,
        tx_spans(seq![pending[0]]),
        tx_spans(pending.drop_first()),
    );
}

proof fn lemma_run_conserves(
    bus: SpiBusMasterDriver,
    capacity: int,
    state: WriteIterState,
    replies: Seq<WriteIterReply>,
)
    requires
        0 < bus.trans_len(),
        capacity <= usize::MAX,
        within_capacity(state, capacity),
        succeeds(bus, capacity, state, replies),
    ensures
        unsent(state) + pulled(replies) == sent(bus, capacity, state, replies) + unsent(
            state_after(bus, capacity, state, replies),
        ),
    decreases replies.len(),
{
    if replies.len() == 0 {
        assert(unsent(state) + pulled(replies) =~= unsent(state));
        assert(sent(bus, capacity, state, replies) + unsent(state) =~= unsent(state));
    } else {
        let (next, action) = write_iter_step(bus, capacity, state, replies[0]);
        let rest = replies.drop_first();
        law_step_conserves(bus, capacity, state, replies[0]);
        law_buffer_bounded(bus, capacity, state, replies[0]);
        lemma_run_conserves(bus, capacity, next, rest);
        assert(unsent(state) + pulled(replies) =~= (unsent(state) + pulled_by(replies[0]))
            + pulled(rest));
        assert((sent_by(next, action) + unsent(next)) + pulled(rest) =~= sent_by(next, action) + (
        unsent(next) + pulled(rest)));
        assert(sent(bus, capacity, state, replies) + unsent(
            state_after(bus, capacity, state, replies),
        ) =~= sent_by(next, action) + (sent(bus, capacity, next, rest) + unsent(
            state_after(bus, capacity, next, rest),
        )));
    }
}

/// A call that pulls no byte sends none and has none unsent.
proof fn lemma_nothing_pulled(
    bus: SpiBusMasterDriver,
    capacity: int,
    state: WriteIterState,
    replies: Seq<WriteIterReply>,
)
    requires
        succeeds(bus, capacity, state, replies),
        pulled(replies).len() == 0,
        state.collected.len() == 0,
        state.writing is None,
    ensures
        sent(bus, capacity, state, replies) == Seq::<u8>::empty(),
        unsent(state_after(bus, capacity, state, replies)) == Seq::<u8>::empty(),
    decreases replies.len(),
{
    if replies.len() > 0 {
        let (next, action) = write_iter_step(bus, capacity, state, replies[0]);
        assert(pulled(replies).len() == pulled_by(replies[0]).len() + pulled(
            replies.drop_first(),
        ).len());
        lemma_nothing_pulled(bus, capacity, next, replies.drop_first());
    }
}

/// A call in which nothing fails sends the bytes that it pulls, each once and in order; when its
/// body is over it has sent all of them.
pub proof fn law_write_iter_sends_all(
    bus: SpiBusMasterDriver,
    capacity: int,
    replies: Seq<WriteIterReply>,
)
    requires
        0 < bus.trans_len() || pulled(replies).len() == 0,
        0 <= capacity <= usize::MAX,
        succeeds(bus, capacity, write_iter_start(), replies),
    ensures
        ({
            let end = state_after(bus, capacity, write_iter_start(), replies);
            &&& pulled(replies) == sent(bus, capacity, write_iter_start(), replies) + unsent(end)
            &&& unsent(end).len() <= capacity
            &&& !(end.stage is Running) ==> pulled(replies) == sent(
                bus,
                capacity,
                write_iter_start(),
                replies,
            )
        }),
{
    let start = write_iter_start();
    let end = state_after(bus, capacity, start, replies);
    if pulled(replies).len() == 0 {
        lemma_nothing_pulled(bus, capacity, start, replies);
        assert(pulled(replies) =~= sent(bus, capacity, start, replies) + unsent(end));
    } else {
        lemma_run_conserves(bus, capacity, start, replies);
        assert(unsent(start) + pulled(replies) =~= pulled(replies));
        lemma_unsent_bounded(bus, capacity, start, replies);
        if !(end.stage is Running) {
            assert(sent(bus, capacity, start, replies) + unsent(end) =~= sent(
                bus,
                capacity,
                start,
                replies,
            ));
        }
    }
}

proof fn lemma_unsent_bounded(
    bus: SpiBusMasterDriver,
    capacity: int,
    state: WriteIterState,
    replies: Seq<WriteIterReply>,
)
    requires
        0 < bus.trans_len(),
        0 <= capacity <= usize::MAX,
        within_capacity(state, capacity),
        unsent(state).len() <= capacity,
        succeeds(bus, capacity, state, replies),
    ensures
        unsent(state_after(bus, capacity, state, replies)).len() <= capacity,
    decreases replies.len(),
{
    if replies.len() > 0 {
        let (next, action) = write_iter_step(bus, capacity, state, replies[0]);
        law_buffer_bounded(bus, capacity, state, replies[0]);
        law_step_conserves(bus, capacity, state, replies[0]);
        assert((unsent(state) + pulled_by(replies[0])).len() == unsent(state).len() + pulled_by(
            replies[0],
        ).len());
        assert((sent_by(next, action) + unsent(next)).len() == sent_by(next, action).len()
            + unsent(next).len());
        lemma_unsent_bounded(bus, capacity, next, replies.drop_first());
    }
}

/// The three steps that end a body: CS is let go of, then the bus is released, then the call
/// returns.
pub open spec fn ends_with(
    bus: SpiBusMasterDriver,
    capacity: int,
    state: WriteIterState,
    reply: WriteIterReply,
    finished: i32,
    result: Result<(), SpiError>,
) -> bool {
    let (s1, a1) = write_iter_step(bus, capacity, state, reply);
    let (s2, a2) = write_iter_step(bus, capacity, s1, WriteIterReply::Transmitted(finished));
    let (s3, a3) = write_iter_step(bus, capacity, s2, WriteIterReply::Released);
    &&& a1 == WriteIterAction::Finish(bus.finish_transmission())
    &&& s1.expects(WriteIterReply::Transmitted(finished))
    &&& a2 == WriteIterAction::ReleaseBus(bus.link().handle)
    &&& s2.expects(WriteIterReply::Released)
    &&& a3 == WriteIterAction::Return(result)
    &&& s3.stage is Done
}

/// When a transmission fails, no other byte is pulled or sent: CS is let go of, the bus is
/// released, and the call returns the error, whatever letting go of CS came to.
pub proof fn law_failure_ends_write_iter(
    bus: SpiBusMasterDriver,
    capacity: int,
    state: WriteIterState,
    status: i32,
    finished: i32,
)
    requires
        state.stage is Running,
        holds_own_bus(bus, state),
        state.writing is Some,
        status != ESP_OK,
    ensures
        ends_with(
            bus,
            capacity,
            state,
            WriteIterReply::Transmitted(status),
            finished,
            Err(other_error(EspError { code: status })),
        ),
{
}

/// When the source has no byte and none is unsent, CS is let go of, the bus is released, and the
/// call succeeds if and only if letting go of CS did.
pub proof fn law_dry_source_ends_write_iter(
    bus: SpiBusMasterDriver,
    capacity: int,
    state: WriteIterState,
    finished: i32,
)
    requires
        state.stage is Running,
        holds_own_bus(bus, state),
        state.writing is None,
        state.collected.len() == 0,
    ensures
        ends_with(
            bus,
            capacity,
            state,
            WriteIterReply::Word(None),
            finished,
            match esp_result(finished) {
                Ok(_) => Ok(()),
                Err(e) => Err(other_error(e)),
            },
        ),
{
}

/// The actions that a call hands out as these replies come in, one for each.
pub open spec fn actions(
    bus: SpiBusMasterDriver,
    capacity: int,
    state: WriteIterState,
    replies: Seq<WriteIterReply>,
) -> Seq<WriteIterAction>
    decreases replies.len(),
{
    if replies.len() == 0 {
        seq![]
    } else {
        let (next, action) = write_iter_step(bus, capacity, state, replies[0]);
        seq![action] + actions(bus, capacity, next, replies.drop_first())
    }
}

/// Whether each of these replies, failure or not, is one to the action before it.
pub open spec fn follows(
    bus: SpiBusMasterDriver,
    capacity: int,
    state: WriteIterState,
    replies: Seq<WriteIterReply>,
) -> bool
    decreases replies.len(),
{
    replies.len() > 0 ==> {
        &&& state.expects(replies[0])
        &&& follows(
            bus,
            capacity,
            write_iter_step(bus, capacity, state, replies[0]).0,
            replies.drop_first(),
        )
    }
}

/// Whether a transmission sends bytes of the buffer, as many as the bus allows at most, receives
/// none, and keeps CS active.
pub open spec fn sends_data(bus: SpiBusMasterDriver, sent: Transmission) -> bool {
    &&& sent.handle == bus.link().handle
    &&& sent.flags == transmission_flags(bus.link(), true)
    &&& sent.tx is Some
    &&& sent.rx is None
    &&& sent.length == 8 * sent.tx->0.len
    &&& 0 < sent.length <= 8 * bus.trans_len()
    &&& sent.rxlength == 0
}

/// Whether an action is one of the body: it pulls a byte or sends some.
pub open spec fn of_body(bus: SpiBusMasterDriver, action: WriteIterAction) -> bool {
    match action {
        WriteIterAction::NextWord => true,
        WriteIterAction::Transmit(sent) => sends_data(bus, sent),
        _ => false,
    }
}

/// Whether a reply reports the failure of a call.
pub open spec fn failed(reply: WriteIterReply) -> bool {
    match reply {
        WriteIterReply::Acquired(status) => status != ESP_OK,
        WriteIterReply::Transmitted(status) => status != ESP_OK,
        _ => false,
    }
}

/// What a call returns when `last` is the reply that ended its body and `finished` the one to
/// letting go of CS: the failure of the body, or else the one of letting go of CS.
pub open spec fn run_result(last: WriteIterReply, finished: WriteIterReply) -> Result<
    (),
    SpiError,
> {
    match (last, finished) {
        (WriteIterReply::Transmitted(status), _) if status != ESP_OK => Err(
            other_error(EspError { code: status }),
        ),
        (_, WriteIterReply::Transmitted(status)) if status != ESP_OK => Err(
            other_error(EspError { code: status }),
        ),
        _ => Ok(()),
    }
}

/// Whether these are the actions of a call from the moment that it has the bus: those of the
/// body, none of them after a failure, then CS is let go of, then the bus is released, then the
/// call returns.
pub open spec fn runs_to_end(
    bus: SpiBusMasterDriver,
    replies: Seq<WriteIterReply>,
    acts: Seq<WriteIterAction>,
) -> bool {
    let n = acts.len() as int;
    &&& n == replies.len()
    &&& n >= 3
    &&& forall|i: int| 0 <= i < n - 3 ==> of_body(bus, #[trigger] acts[i])
    &&& forall|i: int| 0 <= i < n - 3 ==> !failed(#[trigger] replies[i])
    &&& acts[n - 3] == WriteIterAction::Finish(bus.finish_transmission())
    &&& acts[n - 2] == WriteIterAction::ReleaseBus(bus.link().handle)
    &&& acts[n - 1] == WriteIterAction::Return(run_result(replies[n - 3], replies[n - 2]))
}

/// What a call that has the bus still has to send are transmissions of data.
spec fn pending_data(bus: SpiBusMasterDriver, state: WriteIterState) -> bool {
    state.writing matches Some(pending) ==> forall|i: int|
        0 <= i < pending.len() ==> sends_data(bus, #[trigger] pending[i])
}

proof fn lemma_body_step(
    bus: SpiBusMasterDriver,
    capacity: int,
    state: WriteIterState,
    reply: WriteIterReply,
)
    requires
        bus.wf(),
        capacity <= usize::MAX,
        within_capacity(state, capacity),
        pending_data(bus, state),
        state.stage is Running,
        state.expects(reply),
    ensures
        ({
            let (next, action) = write_iter_step(bus, capacity, state, reply);
            &&& next.stage is Running ==> {
                &&& of_body(bus, action)
                &&& pending_data(bus, next)
                &&& !failed(reply)
            }
            &&& !(next.stage is Running) ==> {
                &&& next.stage is Finishing
                &&& action == WriteIterAction::Finish(bus.finish_transmission())
                &&& next.stage->Finishing_1 == match reply {
                    WriteIterReply::Transmitted(status) => match esp_result(status) {
                        Ok(_) => Ok(()),
                        Err(e) => Err(other_error(e)),
                    },
                    _ => Ok::<(), SpiError>(()),
                }
            }
        }),
{
    if state.writing is None && state.begins_write(capacity, reply) {
        let collected = match reply->Word_0 {
            Some(word) => state.collected.push(word),
            None => state.collected,
        };
        let len = collected.len() as int;
        let pending = write_iter_transmissions(bus, collected);
        if bus.trans_len() > 0 {
            law_transmissions_bounded(bus.link(), Lanes::Write, 0, len, bus.trans_len());
        }
        if bus.trans_len() > 0 {
            lemma_held_cut(bus.link(), Lanes::Write, 0, len, bus.trans_len());
        }
        assert forall|i: int| 0 <= i < pending.len() implies sends_data(
            bus,
            #[trigger] pending[i],
        ) by {}
    }
}

proof fn lemma_runs_to_end(
    bus: SpiBusMasterDriver,
    capacity: int,
    state: WriteIterState,
    replies: Seq<WriteIterReply>,
)
    requires
        bus.wf(),
        capacity <= usize::MAX,
        within_capacity(state, capacity),
        holds_own_bus(bus, state),
        pending_data(bus, state),
        state.stage is Running,
        follows(bus, capacity, state, replies),
        state_after(bus, capacity, state, replies).stage is Done,
    ensures
        runs_to_end(bus, replies, actions(bus, capacity, state, replies)),
    decreases replies.len(),
{
    let (next, action) = write_iter_step(bus, capacity, state, replies[0]);
    let rest = replies.drop_first();
    lemma_body_step(bus, capacity, state, replies[0]);
    law_buffer_bounded(bus, capacity, state, replies[0]);
    law_bus_kept(bus, capacity, state, replies[0]);
    let acts = actions(bus, capacity, state, replies);
    if next.stage is Running {
        lemma_runs_to_end(bus, capacity, next, rest);
        let later = actions(bus, capacity, next, rest);
        assert(acts == seq![action] + later);
        assert forall|i: int| 0 <= i < acts.len() - 3 implies of_body(bus, #[trigger] acts[i]) by {
            if i > 0 {
                assert(acts[i] == later[i - 1]);
            }
        }
        assert forall|i: int| 0 <= i < acts.len() - 3 implies !failed(#[trigger] replies[i]) by {
            if i > 0 {
                assert(replies[i] == rest[i - 1]);
            }
        }
    } else {
        lemma_finishing(bus, capacity, next, rest);
        assert(acts == seq![action] + actions(bus, capacity, next, rest));
    }
}

/// From the moment that CS is let go of, two replies end the call.
proof fn lemma_finishing(
    bus: SpiBusMasterDriver,
    capacity: int,
    state: WriteIterState,
    replies: Seq<WriteIterReply>,
)
    requires
        holds_own_bus(bus, state),
        state.stage is Finishing,
        follows(bus, capacity, state, replies),
        state_after(bus, capacity, state, replies).stage is Done,
    ensures
        replies.len() == 2,
        replies[0] is Transmitted,
        actions(bus, capacity, state, replies) == seq![
            WriteIterAction::ReleaseBus(bus.link().handle),
            WriteIterAction::Return(
                match (state.stage->Finishing_1, esp_result(replies[0]->Transmitted_0)) {
                    (Err(e), _) => Err(e),
                    (Ok(_), Err(e)) => Err(other_error(e)),
                    (Ok(_), Ok(_)) => Ok(()),
                },
            ),
        ],
{
    reveal_with_fuel(actions, 3);
    reveal_with_fuel(follows, 4);
    reveal_with_fuel(state_after, 4);
    let (s1, a1) = write_iter_step(bus, capacity, state, replies[0]);
    let r1 = replies.drop_first();
    assert(r1.len() > 0);
    let (s2, a2) = write_iter_step(bus, capacity, s1, r1[0]);
    let r2 = r1.drop_first();
    assert(s2.stage is Done);
    assert(r2.len() == 0);
    assert(actions(bus, capacity, state, replies) =~= seq![a1, a2]);
}

/// A whole call, whatever fails: where the bus cannot be acquired, it does nothing but return the
/// error. Otherwise it acquires the bus, once; then it only pulls bytes and sends data, keeping
/// CS active, and nothing of that after a failure; then it lets go of CS with one empty
/// transmission, releases the bus, once, and returns the first failure, or success where there
/// is none.
pub proof fn law_write_iter_order(
    bus: SpiBusMasterDriver,
    capacity: int,
    replies: Seq<WriteIterReply>,
)
    requires
        bus.wf(),
        0 <= capacity <= usize::MAX,
        follows(bus, capacity, write_iter_start(), replies),
        state_after(bus, capacity, write_iter_start(), replies).stage is Done,
    ensures
        ({
            let acts = actions(bus, capacity, write_iter_start(), replies);
            &&& acts.len() == replies.len() >= 2
            &&& acts[0] == WriteIterAction::AcquireBus(bus.link().handle)
            &&& replies[1] matches WriteIterReply::Acquired(acquired)
            &&& match esp_result(acquired) {
                Err(e) => acts == seq![
                    WriteIterAction::AcquireBus(bus.link().handle),
                    WriteIterAction::Return(Err(other_error(e))),
                ],
                Ok(_) => runs_to_end(bus, replies.skip(1), acts.skip(1)),
            }
        }),
{
    reveal_with_fuel(actions, 2);
    reveal_with_fuel(follows, 3);
    reveal_with_fuel(state_after, 3);
    let start = write_iter_start();
    let acts = actions(bus, capacity, start, replies);
    let (s1, a1) = write_iter_step(bus, capacity, start, replies[0]);
    let r1 = replies.drop_first();
    assert(r1.len() > 0);
    let (s2, a2) = write_iter_step(bus, capacity, s1, r1[0]);
    let r2 = r1.drop_first();
    let later = actions(bus, capacity, s1, r1);
    assert(acts == seq![a1] + later);
    assert(acts.skip(1) =~= later);
    assert(replies.skip(1) =~= r1);
    let tail = actions(bus, capacity, s2, r2);
    assert(later == seq![a2] + tail);
    lemma_actions_len(bus, capacity, s2, r2);
    match esp_result(r1[0]->Acquired_0) {
        Err(e) => {
            assert(r2.len() == 0);
            assert(acts =~= seq![a1, a2]);
        },
        Ok(_) => {
            if capacity == 0 {
                lemma_finishing(bus, capacity, s2, r2);
            } else {
                lemma_runs_to_end(bus, capacity, s2, r2);
                assert forall|i: int| 0 <= i < later.len() - 3 implies of_body(
                    bus,
                    #[trigger] later[i],
                ) by {
                    if i > 0 {
                        assert(later[i] == tail[i - 1]);
                    }
                }
                assert forall|i: int| 0 <= i < later.len() - 3 implies !failed(
                    #[trigger] r1[i],
                ) by {
                    if i > 0 {
                        assert(r1[i] == r2[i - 1]);
                    }
                }
            }
        },
    }
}

proof fn lemma_actions_len(
    bus: SpiBusMasterDriver,
    capacity: int,
    state: WriteIterState,
    replies: Seq<WriteIterReply>,
)
    ensures
        actions(bus, capacity, state, replies).len() == replies.len(),
    decreases replies.len(),
{
    if replies.len() > 0 {
        let next = write_iter_step(bus, capacity, state, replies[0]).0;
        lemma_actions_len(bus, capacity, next, replies.drop_first());
    }
}

/// A call whose bus cannot be acquired pulls nothing, sends nothing, and returns the error; any
/// other begins with an empty buffer.
pub proof fn law_write_iter_begins(bus: SpiBusMasterDriver, capacity: int, acquired: i32)
    requires
        0 < capacity,
    ensures
        ({
            let (s1, a1) = write_iter_step(
                bus,
                capacity,
                write_iter_start(),
                WriteIterReply::Start,
            );
            let (s2, a2) = write_iter_step(bus, capacity, s1, WriteIterReply::Acquired(acquired));
            &&& a1 == WriteIterAction::AcquireBus(bus.link().handle)
            &&& match esp_result(acquired) {
                Err(e) => s2.stage is Done && a2 == WriteIterAction::Return(Err(other_error(e))),
                Ok(_) => {
                    &&& s2.stage == Stage::<(), SpiError>::Running(
                        Lock { device: bus.link().handle },
                    )
                    &&& a2 == WriteIterAction::NextWord
                    &&& unsent(s2) == Seq::<u8>::empty()
                    &&& s2.collected.len() == 0
                    &&& s2.writing is None
                },
            }
        }),
{
}

/// A call without a buffer pulls nothing and sends nothing: once it has the bus, it lets go of CS,
/// releases the bus, and succeeds if and only if letting go of CS did.
pub proof fn law_write_iter_without_buffer(bus: SpiBusMasterDriver, finished: i32)
    ensures
        ({
            let s1 = write_iter_step(bus, 0, write_iter_start(), WriteIterReply::Start).0;
            ends_with(
                bus,
                0,
                s1,
                WriteIterReply::Acquired(0),
                finished,
                if finished == 0 {
                    Ok(())
                } else {
                    Err(other_error(EspError { code: finished }))
                },
            )
        }),
{
}

/// Whatever came of an action, a call takes it: each state expects every reply to the action that
/// led to it.
pub proof fn law_write_iter_takes_every_reply(
    state: WriteIterState,
    status: i32,
    word: Option<u8>,
)
    ensures
        write_iter_start().expects(WriteIterReply::Start),
        state.stage is Acquiring ==> state.expects(WriteIterReply::Acquired(status)),
        state.stage is Running && state.writing is None ==> state.expects(
            WriteIterReply::Word(word),
        ),
        state.stage is Running && state.writing is Some ==> state.expects(
            WriteIterReply::Transmitted(status),
        ),
        state.stage is Finishing ==> state.expects(WriteIterReply::Transmitted(status)),
        state.stage is Releasing ==> state.expects(WriteIterReply::Released),
{
}

/// As long as nothing fails, the body of a call goes on until the source has no byte and none is
/// unsent: nothing else ends it, whatever the bytes are and however many came before.
pub proof fn law_only_dry_source_ends_body(
    bus: SpiBusMasterDriver,
    capacity: int,
    state: WriteIterState,
    reply: WriteIterReply,
)
    requires
        0 < bus.trans_len(),
        0 < capacity <= usize::MAX,
        within_capacity(state, capacity),
        state.stage is Running,
        state.expects(reply),
        !failed(reply),
    ensures
        ({
            let (next, action) = write_iter_step(bus, capacity, state, reply);
            let dry = reply == WriteIterReply::Word(None) && state.collected.len() == 0;
            &&& dry <==> next.stage is Finishing
            &&& dry <==> action is Finish
            &&& !dry ==> {
                &&& next.stage == state.stage
                &&& action is NextWord || action is Transmit
                &&& action is NextWord <==> next.writing is None
            }
        }),
{
    if state.writing is None && state.begins_write(capacity, reply) {
        lemma_some_chunk(bus, state.collected + pulled_by(reply));
        match reply->Word_0 {
            Some(word) => {
                assert(state.collected + pulled_by(reply) =~= state.collected.push(word));
            },
            None => {
                assert(state.collected + pulled_by(reply) =~= state.collected);
            },
        }
    }
}

/// A byte that does not fill the buffer is put behind those that are there, and the next one is
/// asked for.
pub proof fn law_byte_collected(
    bus: SpiBusMasterDriver,
    capacity: int,
    state: WriteIterState,
    word: u8,
)
    requires
        state.stage is Running,
        state.writing is None,
        state.collected.len() + 1 < capacity,
    ensures
        ({
            let (next, action) = write_iter_step(
                bus,
                capacity,
                state,
                WriteIterReply::Word(Some(word)),
            );
            &&& action == WriteIterAction::NextWord
            &&& next.stage == state.stage
            &&& next.writing is None
            &&& next.collected == state.collected + seq![word]
        }),
{
    assert(state.collected.push(word) =~= state.collected + seq![word]);
}

/// Whether a step begins to write a whole buffer: byte `i` of it is the `i`-th byte that is
/// clocked, in pieces of as many bytes as the bus allows, CS staying active.
pub open spec fn writes_buffer(
    bus: SpiBusMasterDriver,
    buffer: Seq<u8>,
    next: WriteIterState,
    action: WriteIterAction,
) -> bool {
    &&& action matches WriteIterAction::Transmit(first)
    &&& next.writing matches Some(rest)
    &&& next.collected == buffer
    &&& wire(seq![first] + rest) == in_step(0, buffer.len() as int)
    &&& cut(seq![first] + rest, true, false, 0, buffer.len() as int, bus.trans_len())
    &&& held(seq![first] + rest, bus.link())
}

proof fn lemma_writes_buffer(bus: SpiBusMasterDriver, collected: Seq<u8>)
    requires
        bus.wf(),
        0 < bus.trans_len(),
        0 < collected.len() <= usize::MAX,
    ensures
        ({
            let pending = write_iter_transmissions(bus, collected);
            let len = collected.len() as int;
            &&& pending.len() > 0
            &&& seq![pending[0]] + pending.drop_first() == pending
            &&& wire(pending) == in_step(0, len)
            &&& cut(pending, true, false, 0, len, bus.trans_len())
            &&& held(pending, bus.link())
        }),
{
    let pending = write_iter_transmissions(bus, collected);
    let len = collected.len() as int;
    lemma_some_chunk(bus, collected);
    assert(seq![pending[0]] + pending.drop_first() =~= pending);
    lemma_held_cut(bus.link(), Lanes::Write, 0, len, bus.trans_len());
    lemma_wire_cut(pending, true, false, 0, len, bus.trans_len());
    assert(wire(pending) =~= in_step(0, len));
}

/// The byte that fills the buffer makes the call write all of it.
pub proof fn law_full_buffer_written(
    bus: SpiBusMasterDriver,
    capacity: int,
    state: WriteIterState,
    word: u8,
)
    requires
        bus.wf(),
        0 < bus.trans_len(),
        capacity <= usize::MAX,
        state.stage is Running,
        state.writing is None,
        state.collected.len() + 1 == capacity,
    ensures
        ({
            let (next, action) = write_iter_step(
                bus,
                capacity,
                state,
                WriteIterReply::Word(Some(word)),
            );
            &&& writes_buffer(bus, state.collected + seq![word], next, action)
            &&& next.stage == state.stage
        }),
{
    assert(state.collected.push(word) =~= state.collected + seq![word]);
    lemma_writes_buffer(bus, state.collected.push(word));
}

/// When the source runs dry, what the buffer holds is written, all of it.
pub proof fn law_last_buffer_written(
    bus: SpiBusMasterDriver,
    capacity: int,
    state: WriteIterState,
)
    requires
        bus.wf(),
        0 < bus.trans_len(),
        state.stage is Running,
        state.writing is None,
        0 < state.collected.len() <= usize::MAX,
    ensures
        ({
            let (next, action) = write_iter_step(
                bus,
                capacity,
                state,
                WriteIterReply::Word(None),
            );
            &&& writes_buffer(bus, state.collected, next, action)
            &&& next.stage == state.stage
        }),
{
    lemma_writes_buffer(bus, state.collected);
}

/// The transmissions of a buffer are handed out one after the other, as long as they succeed.
/// After the last one the buffer is empty, and the next byte is asked for, whatever was written.
pub proof fn law_buffer_written_to_end(
    bus: SpiBusMasterDriver,
    capacity: int,
    state: WriteIterState,
)
    requires
        0 < capacity,
        state.stage is Running,
        state.writing is Some,
    ensures
        ({
            let pending = state.writing->0;
            let (next, action) = write_iter_step(
                bus,
                capacity,
                state,
                WriteIterReply::Transmitted(0),
            );
            &&& next.stage == state.stage
            &&& pending.len() > 0 ==> {
                &&& action == WriteIterAction::Transmit(pending[0])
                &&& next.writing == Some(pending.drop_first())
                &&& next.collected == state.collected
            }
            &&& pending.len() == 0 ==> {
                &&& action == WriteIterAction::NextWord
                &&& next.writing is None
                &&& next.collected.len() == 0
            }
        }),
{
}

/// Whether these replies are those of a source that has these bytes: it gives them one by one, in
/// order, and says that it has none only when it has given all of them.
pub open spec fn gives(replies: Seq<WriteIterReply>, source: Seq<u8>) -> bool
    decreases replies.len(),
{
    replies.len() > 0 ==> match replies[0] {
        WriteIterReply::Word(Some(word)) => {
            &&& source.len() > 0
            &&& word == source[0]
            &&& gives(replies.drop_first(), source.drop_first())
        },
        WriteIterReply::Word(None) => source.len() == 0 && gives(replies.drop_first(), source),
        _ => gives(replies.drop_first(), source),
    }
}

/// From the moment that CS is let go of, no byte is pulled.
proof fn lemma_pulls_nothing_more(
    bus: SpiBusMasterDriver,
    capacity: int,
    state: WriteIterState,
    replies: Seq<WriteIterReply>,
)
    requires
        state.stage is Finishing || state.stage is Releasing || state.stage is Done,
        succeeds(bus, capacity, state, replies),
    ensures
        pulled(replies) == Seq::<u8>::empty(),
    decreases replies.len(),
{
    if replies.len() > 0 {
        let next = write_iter_step(bus, capacity, state, replies[0]).0;
        lemma_pulls_nothing_more(bus, capacity, next, replies.drop_first());
    }
}

proof fn lemma_pulls_whole_source(
    bus: SpiBusMasterDriver,
    capacity: int,
    state: WriteIterState,
    replies: Seq<WriteIterReply>,
    source: Seq<u8>,
)
    requires
        0 < bus.trans_len() || (source.len() == 0 && state.collected.len() == 0
            && state.writing is None),
        0 < capacity <= usize::MAX,
        within_capacity(state, capacity),
        state.stage is Start || state.stage is Acquiring || state.stage is Running,
        succeeds(bus, capacity, state, replies),
        gives(replies, source),
        ({
            let end = state_after(bus, capacity, state, replies);
            !(end.stage is Start || end.stage is Acquiring || end.stage is Running)
        }),
    ensures
        pulled(replies) == source,
    decreases replies.len(),
{
    let reply = replies[0];
    let rest = replies.drop_first();
    let (next, action) = write_iter_step(bus, capacity, state, reply);
    law_buffer_bounded(bus, capacity, state, reply);
    if state.stage is Running && bus.trans_len() > 0 {
        law_only_dry_source_ends_body(bus, capacity, state, reply);
    }
    if next.stage is Finishing {
        lemma_pulls_nothing_more(bus, capacity, next, rest);
        assert(pulled(replies) =~= source);
    } else {
        match reply {
            WriteIterReply::Word(Some(word)) => {
                lemma_pulls_whole_source(bus, capacity, next, rest, source.drop_first());
                assert(seq![word] + source.drop_first() =~= source);
            },
            _ => {
                lemma_pulls_whole_source(bus, capacity, next, rest, source);
                assert(Seq::<u8>::empty() + source =~= source);
            },
        }
    }
}

/// A call in which nothing fails sends all the bytes of its source, each once and in order,
/// whatever they are: when its body is over, what it has sent is the source, from its first byte
/// to its last.
pub proof fn law_write_iter_sends_source(
    bus: SpiBusMasterDriver,
    capacity: int,
    replies: Seq<WriteIterReply>,
    source: Seq<u8>,
)
    requires
        0 < bus.trans_len() || source.len() == 0,
        0 < capacity <= usize::MAX,
        succeeds(bus, capacity, write_iter_start(), replies),
        gives(replies, source),
        ({
            let end = state_after(bus, capacity, write_iter_start(), replies);
            end.stage is Finishing || end.stage is Releasing || end.stage is Done
        }),
    ensures
        sent(bus, capacity, write_iter_start(), replies) == source,
{
    lemma_pulls_whole_source(bus, capacity, write_iter_start(), replies, source);
    law_write_iter_sends_all(bus, capacity, replies);
}

} // verus!
