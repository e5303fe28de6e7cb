//! What a transfer or a write outside of a transaction promises as a whole.

use vstd::prelude::*;

use crate::blocking::{
    blocking_start, blocking_step, BlockingAction, BlockingStage, BlockingState,
};
use crate::bus_laws::{lemma_flatten_len, replies_fit};
use crate::call::CallReply;
use crate::chunk::{
    chunks, gather, law_chunk_at, lemma_gather_chunks, lemma_scatter_chunks, scatter, Span,
};
use crate::error::{other_error, SpiError};
use crate::master::DriverState;
use crate::sys::{DeviceHandle, EspError, ESP_OK};
use crate::transaction::Lock;
use crate::transmission::{
    closing_transmissions, rx_spans, transmission_flags, tx_spans, Lanes, Link, Transmission,
};

verus! {

/// The actions of a call from a state on, when `reply` comes in first and `statuses` are those of
/// the actions that have one. Without enough of them the run has no end.
pub open spec fn blocking_run(
    device: DeviceHandle,
    state: BlockingState,
    reply: CallReply,
    statuses: Seq<i32>,
) -> Seq<BlockingAction>
    decreases
            statuses.len(),
            (if reply is Released {
                0int
            } else {
                1int
            }),
{
    let (next, action) = blocking_step(device, state, reply);
    match action {
        BlockingAction::AcquireBus(_) => if statuses.len() == 0 {
            seq![action]
        } else {
            seq![action] + blocking_run(
                device,
                next,
                CallReply::Acquired(statuses[0]),
                statuses.drop_first(),
            )
        },
        BlockingAction::Transmit(_) => if statuses.len() == 0 {
            seq![action]
        } else {
            seq![action] + blocking_run(
                device,
                next,
                CallReply::Transmitted(statuses[0]),
                statuses.drop_first(),
            )
        },
        BlockingAction::ReleaseBus(_) => if reply is Released {
            seq![action]
        } else {
            seq![action] + blocking_run(device, next, CallReply::Released, statuses)
        },
        BlockingAction::Return(_) => seq![action],
    }
}

/// The actions that perform these transmissions.
pub open spec fn transmits(sent: Seq<Transmission>) -> Seq<BlockingAction> {
    Seq::new(sent.len(), |i: int| BlockingAction::Transmit(sent[i]))
}

/// The actions that end a call which has the bus: it is released, and the call returns.
pub open spec fn ending(device: DeviceHandle, result: Result<(), SpiError>) -> Seq<
    BlockingAction,
> {
    seq![BlockingAction::ReleaseBus(device), BlockingAction::Return(result)]
}

proof fn lemma_ending(
    device: DeviceHandle,
    pending: Seq<Transmission>,
    status: i32,
    statuses: Seq<i32>,
)
    requires
        status != ESP_OK || pending.len() == 0,
    ensures
        blocking_run(
            device,
            BlockingState { stage: BlockingStage::Transmitting(Lock { device }), pending },
            CallReply::Transmitted(status),
            statuses,
        ) == ending(
            device,
            if status == ESP_OK {
                Ok(())
            } else {
                Err(other_error(EspError { code: status }))
            },
        ),
{
    reveal_with_fuel(blocking_run, 2);
    let result = if status == ESP_OK {
        Ok(())
    } else {
        Err(other_error(EspError { code: status }))
    };
    assert(seq![BlockingAction::ReleaseBus(device)] + seq![BlockingAction::Return(result)]
        =~= seq![BlockingAction::ReleaseBus(device), BlockingAction::Return(result)]);
}

proof fn lemma_transmitting(
    device: DeviceHandle,
    pending: Seq<Transmission>,
    statuses: Seq<i32>,
    k: int,
)
    requires
        0 <= k <= pending.len() <= statuses.len(),
        forall|i: int| 0 <= i < k ==> statuses[i] == ESP_OK,
        k < pending.len() ==> statuses[k] != ESP_OK,
    ensures
        blocking_run(
            device,
            BlockingState { stage: BlockingStage::Transmitting(Lock { device }), pending },
            CallReply::Transmitted(ESP_OK),
            statuses,
        ) == if k < pending.len() {
            transmits(pending.take(k + 1)) + ending(
                device,
                Err(other_error(EspError { code: statuses[k] })),
            )
        } else {
            transmits(pending) + ending(device, Ok(()))
        },
    decreases pending.len(),
{
    if pending.len() == 0 {
        lemma_ending(device, pending, ESP_OK, statuses);
        assert(transmits(pending) + ending(device, Ok(())) =~= ending(device, Ok(())));
    } else {
        let rest = pending.drop_first();
        let first = seq![BlockingAction::Transmit(pending[0])];
        if k == 0 {
            lemma_ending(device, rest, statuses[0], statuses.drop_first());
            assert(transmits(pending.take(1)) =~= first);
        } else {
            lemma_transmitting(device, rest, statuses.drop_first(), k - 1);
            if k < pending.len() {
                assert(transmits(pending.take(k + 1)) =~= first + transmits(rest.take(k)));
                let end = ending(device, Err(other_error(EspError { code: statuses[k] })));
                assert(first + (transmits(rest.take(k)) + end) =~= transmits(pending.take(k + 1))
                    + end);
            } else {
                assert(transmits(pending) =~= first + transmits(rest));
                let end = ending(device, Ok(()));
                assert(first + (transmits(rest) + end) =~= transmits(pending) + end);
            }
        }
    }
}

/// A call whose bus cannot be acquired transmits nothing, releases nothing, and returns the
/// error, unless it had nothing to transmit.
pub proof fn law_blocking_without_bus(
    driver: DriverState,
    lanes: Lanes,
    words: int,
    acquired: i32,
)
    requires
        acquired != ESP_OK,
        0 <= words,
        0 < driver.max_transfer_size,
    ensures
        blocking_run(
            driver.link.handle,
            blocking_start(driver, lanes, words),
            CallReply::Start,
            seq![acquired],
        ) == seq![
            BlockingAction::AcquireBus(driver.link.handle),
            BlockingAction::Return(
                if words == 0 {
                    Ok(())
                } else {
                    Err(other_error(EspError { code: acquired }))
                },
            ),
        ],
{
    reveal_with_fuel(blocking_run, 2);
    let device = driver.link.handle;
    let start = blocking_start(driver, lanes, words);
    assert(words == 0 <==> start.pending.len() == 0);
    let run = blocking_run(device, start, CallReply::Start, seq![acquired]);
    assert(seq![acquired].drop_first() =~= seq![]);
    assert(run =~= seq![BlockingAction::AcquireBus(device), run[1]]);
}

/// A call that gets the bus performs its transmissions in order up to the first one that fails,
/// then releases the bus, once, and returns that failure, or success where there is none. `k` is
/// the index of the failure, or the number of the transmissions.
pub proof fn law_blocking_order(
    driver: DriverState,
    lanes: Lanes,
    words: int,
    statuses: Seq<i32>,
    k: int,
)
    requires
        ({
            let pending = blocking_start(driver, lanes, words).pending;
            &&& 0 <= k <= pending.len() <= statuses.len()
            &&& forall|i: int| 0 <= i < k ==> statuses[i] == ESP_OK
            &&& k < pending.len() ==> statuses[k] != ESP_OK
        }),
    ensures
        ({
            let device = driver.link.handle;
            let start = blocking_start(driver, lanes, words);
            let pending = start.pending;
            blocking_run(device, start, CallReply::Start, seq![ESP_OK] + statuses) == seq![
                BlockingAction::AcquireBus(device),
            ] + (if k < pending.len() {
                transmits(pending.take(k + 1)) + ending(
                    device,
                    Err(other_error(EspError { code: statuses[k] })),
                )
            } else {
                transmits(pending) + ending(device, Ok(()))
            })
        }),
{
    let device = driver.link.handle;
    let start = blocking_start(driver, lanes, words);
    let pending = start.pending;
    lemma_transmitting(device, pending, statuses, k);
    let (s1, a1) = blocking_step(device, start, CallReply::Start);
    let all = seq![ESP_OK] + statuses;
    assert(all.drop_first() =~= statuses);
    let held = BlockingState { stage: BlockingStage::Transmitting(Lock { device }), pending };
    // Once the bus is acquired, the call goes on as after a transmission that succeeded.
    assert(blocking_step(device, s1, CallReply::Acquired(ESP_OK)) == blocking_step(
        device,
        held,
        CallReply::Transmitted(ESP_OK),
    ));
    assert(blocking_run(device, s1, CallReply::Acquired(ESP_OK), statuses) == blocking_run(
        device,
        held,
        CallReply::Transmitted(ESP_OK),
        statuses,
    ));
}

/// CS stays active from the first transmission to the last one, which lets go of it.
pub proof fn law_cs_until_last(link: Link, lanes: Lanes, spans: Seq<Span>, i: int)
    requires
        0 <= i < spans.len(),
    ensures
        closing_transmissions(link, lanes, spans).len() == spans.len(),
        closing_transmissions(link, lanes, spans)[i].flags == transmission_flags(
            link,
            i + 1 < spans.len(),
        ),
        i + 1 == spans.len() ==> closing_transmissions(link, lanes, spans)[i].flags == 0,
{
}

/// No transmission of a call is empty or longer than the driver allows.
pub proof fn law_blocking_bounded(driver: DriverState, lanes: Lanes, words: int)
    requires
        0 <= words <= usize::MAX,
        0 < driver.max_transfer_size,
        driver.max_transfer_size * 8 <= usize::MAX,
    ensures
        ({
            let sent = blocking_start(driver, lanes, words).pending;
            forall|i: int|
                0 <= i < sent.len() ==> 0 < (#[trigger] sent[i]).length <= 8
                    * driver.max_transfer_size
        }),
{
    let sent = blocking_start(driver, lanes, words).pending;
    assert forall|i: int| 0 <= i < sent.len() implies 0 < (#[trigger] sent[i]).length <= 8
        * driver.max_transfer_size by {
        law_chunk_at(0, words, driver.max_transfer_size, i);
    }
}

proof fn lemma_closing_spans(link: Link, lanes: Lanes, spans: Seq<Span>)
    ensures
        tx_spans(closing_transmissions(link, lanes, spans)) == match lanes {
            Lanes::Read => seq![],
            _ => spans,
        },
        rx_spans(closing_transmissions(link, lanes, spans)) == match lanes {
            Lanes::Write => seq![],
            _ => spans,
        },
    decreases spans.len(),
{
    let sent = closing_transmissions(link, lanes, spans);
    if spans.len() == 0 {
        assert(spans =~= seq![]);
    } else {
        let rest = spans.drop_first();
        lemma_closing_spans(link, lanes, rest);
        assert(sent.drop_first() =~= closing_transmissions(link, lanes, rest));
        assert(seq![spans[0]] + rest =~= spans);
    }
}

/// A write sends the whole buffer, in order, and fills nothing.
pub proof fn law_blocking_write_sends_all(driver: DriverState, words: Seq<u8>)
    requires
        words.len() <= usize::MAX,
        0 < driver.max_transfer_size,
    ensures
        ({
            let sent = blocking_start(driver, Lanes::Write, words.len() as int).pending;
            &&& gather(words, tx_spans(sent)) == words
            &&& rx_spans(sent) == Seq::<Span>::empty()
        }),
{
    let len = words.len() as int;
    lemma_closing_spans(driver.link, Lanes::Write, chunks(0, len, driver.max_transfer_size));
    lemma_gather_chunks(words, 0, len, driver.max_transfer_size);
    assert(words.subrange(0, len) =~= words);
}

/// A transfer sends the whole buffer, fills the whole buffer with what comes in, and no
/// transmission fills a part that a later one still has to send.
pub proof fn law_blocking_transfer_exchanges_all(
    driver: DriverState,
    words: Seq<u8>,
    replies: Seq<Seq<u8>>,
)
    requires
        words.len() <= usize::MAX,
        0 < driver.max_transfer_size,
        replies_fit(chunks(0, words.len() as int, driver.max_transfer_size), replies),
    ensures
        ({
            let sent = blocking_start(driver, Lanes::Both, words.len() as int).pending;
            &&& gather(words, tx_spans(sent)) == words
            &&& scatter(words, rx_spans(sent), replies) == replies.flatten()
            &&& replies.flatten().len() == words.len()
            &&& forall|i: int, j: int|
                0 <= i < j < sent.len() ==> (#[trigger] sent[i]).rx->0.start + sent[i].rx->0.len
                    <= (#[trigger] sent[j]).tx->0.start
        }),
{
    let len = words.len() as int;
    let size = driver.max_transfer_size;
    let sent = blocking_start(driver, Lanes::Both, len).pending;
    lemma_closing_spans(driver.link, Lanes::Both, chunks(0, len, size));
    lemma_gather_chunks(words, 0, len, size);
    assert(words.subrange(0, len) =~= words);
    lemma_scatter_chunks(words, 0, len, size, replies);
    lemma_flatten_len(0, len, size, replies);
    assert(words.subrange(0, 0) + replies.flatten() + words.subrange(len, len)
        =~= replies.flatten());
    assert forall|i: int, j: int| 0 <= i < j < sent.len() implies (#[trigger] sent[i]).rx->0.start
        + sent[i].rx->0.len <= (#[trigger] sent[j]).tx->0.start by {
        law_chunk_at(0, len, size, i);
        law_chunk_at(0, len, size, j);
        assert(i * size + size <= j * size) by (nonlinear_arith)
            requires
                0 <= i < j,
                0 < size,
        ;
    }
}

/// Whatever came of an action, a call takes it: each stage expects every reply to the action that
/// led to it.
pub proof fn law_blocking_takes_every_reply(stage: BlockingStage, status: i32)
    ensures
        stage is Start ==> stage.expects(CallReply::Start),
        stage is Acquiring ==> stage.expects(CallReply::Acquired(status)),
        stage is Transmitting ==> stage.expects(CallReply::Transmitted(status)),
        stage is Releasing ==> stage.expects(CallReply::Released),
{
}

} // verus!
