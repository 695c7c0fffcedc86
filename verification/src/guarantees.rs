//! What holds of every request, stated over the models that the contracts use.

use vstd::prelude::*;

use crate::block::{block_diff, context_diff, BlockContext};
use crate::call::{completion, BuildingTx, DoneView, ResolvingBlock, TransactionView};
use crate::capture::{after_write, extraction};
use crate::error::{ErrorView, Web3ErrorView};
use crate::outcome::{classification, OutcomeView, ReportView};
use crate::pool::PoolView;
use crate::replay::{transaction_trace, FetchingTraces, ResolvingTraceBlock};
use crate::trace::{shaped, CallTraceView};

verus! {

/// A block reference that names no block ends trace-by-call and trace-by-block with
/// `BlockNotFound`, whatever else the request says. A transaction without a persisted
/// trace is answered with `None`, never with an error.
pub proof fn lemma_absent_block_and_absent_trace(
    call: ResolvingBlock,
    block: ResolvingTraceBlock,
    only_top_call: bool,
)
    ensures
        call.after_resolution(Ok(None)) == Err::<BuildingTx, ErrorView>(ErrorView::BlockNotFound),
        block.after_resolution(Ok(None)) == Err::<FetchingTraces, ErrorView>(
            ErrorView::BlockNotFound,
        ),
        transaction_trace(Ok(None), only_top_call) == Ok::<Option<CallTraceView>, ErrorView>(None),
{
}

/// A replayed trace that is shaped for the top call alone has no nested call and keeps
/// every field of its root, however deep the persisted trace is. This holds of the one
/// trace of trace-by-transaction and of each trace of trace-by-block.
pub proof fn lemma_top_call_of_replay(
    trace: CallTraceView,
    traces: Seq<CallTraceView>,
    fetching: FetchingTraces,
    chain_head: u32,
)
    requires
        fetching.only_top_call,
    ensures
        shaped(trace, true).calls.len() == 0,
        shaped(trace, true) == (CallTraceView { calls: Seq::empty(), ..trace }),
        transaction_trace(Ok(Some(trace)), true) matches Ok(Some(answer)) && answer.calls.len()
            == 0,
        fetching.after_fetch(Ok(traces), chain_head) matches Ok(answer) && answer.traces.len()
            == traces.len() && forall|i: int|
            0 <= i < traces.len() ==> (#[trigger] answer.traces[i]).calls.len() == 0,
{
}

/// A call that ran without a capture cell is answered with a trace without nested calls,
/// whatever the execution reported.
pub proof fn lemma_top_call_of_execution(
    tx: TransactionView,
    block: BlockContext,
    report: ReportView,
    chain_head: u32,
)
    ensures
        completion(tx, block, extraction(None), report, chain_head) matches Ok(done)
            ==> done.trace.calls.len() == 0,
{
}

/// A capture cell takes one write. After any write it is full, and a write into a full
/// cell changes nothing: what was written first stays.
pub proof fn lemma_capture_written_once(
    captured: Option<Seq<CallTraceView>>,
    first: Seq<CallTraceView>,
    second: Seq<CallTraceView>,
)
    ensures
        after_write(captured, first) is Some,
        captured is None ==> after_write(captured, first) == Some(first),
        after_write(after_write(captured, first), second) == after_write(captured, first),
{
}

/// The pool that `requests` requests for a slot, with no release between them, leave of
/// `pool`.
pub open spec fn after_requests(pool: PoolView, requests: nat) -> PoolView
    decreases requests,
{
    if requests == 0 {
        pool
    } else {
        after_requests(pool, (requests - 1) as nat).acquired()
    }
}

/// Whatever is asked of a pool, it never holds more slots than it has, and its capacity
/// stays what it was made with.
pub proof fn lemma_pool_stays_bounded(pool: PoolView)
    requires
        pool.wf(),
    ensures
        pool.acquired().wf() && pool.acquired().capacity == pool.capacity,
        pool.released().wf() && pool.released().capacity == pool.capacity,
        pool.shut().wf() && pool.shut().capacity == pool.capacity,
{
}

/// A fresh pool of `capacity` slots holds `requests` slots after as many requests, as
/// long as they are no more than its capacity: each of them was granted.
pub proof fn lemma_requests_granted(capacity: nat, requests: nat)
    requires
        requests <= capacity,
    ensures
        after_requests(PoolView::fresh(capacity), requests) == (PoolView {
            capacity,
            in_use: requests,
            closed: false,
        }),
    decreases requests,
{
    if requests > 0 {
        lemma_requests_granted(capacity, (requests - 1) as nat);
    }
}

/// A fresh pool of `capacity` slots grants the first `capacity` requests, so that many
/// executions may overlap. The request after those has to wait, and leaves the pool as it
/// is, until one permit is released; then it is granted.
pub proof fn lemma_capacity_bounds_executions(capacity: nat, requests: nat)
    requires
        requests <= capacity,
    ensures
        after_requests(PoolView::fresh(capacity), requests).in_use == requests,
        requests < capacity ==> after_requests(PoolView::fresh(capacity), requests).grants(),
        after_requests(PoolView::fresh(capacity), capacity).full(),
        after_requests(PoolView::fresh(capacity), capacity + 1) == after_requests(
            PoolView::fresh(capacity),
            capacity,
        ),
        capacity > 0 ==> after_requests(PoolView::fresh(capacity), capacity).released().grants(),
{
    lemma_requests_granted(capacity, requests);
    lemma_requests_granted(capacity, capacity);
    let full = after_requests(PoolView::fresh(capacity), capacity);
    assert(after_requests(PoolView::fresh(capacity), capacity + 1) == full.acquired());
}

/// A request for a slot or the return of a permit.
pub enum PoolEvent {
    Request,
    Release,
}

/// The pool that a sequence of requests and releases, in any order, leaves of `pool`.
pub open spec fn after_events(pool: PoolView, events: Seq<PoolEvent>) -> PoolView
    decreases events.len(),
{
    if events.len() == 0 {
        pool
    } else {
        let before = after_events(pool, events.drop_last());
        match events.last() {
            PoolEvent::Request => before.acquired(),
            PoolEvent::Release => before.released(),
        }
    }
}

/// However requests and releases follow one another, the executions that hold a slot at
/// one time are never more than the capacity that the pool was made with.
pub proof fn lemma_every_schedule_is_bounded(capacity: nat, events: Seq<PoolEvent>)
    ensures
        after_events(PoolView::fresh(capacity), events).in_use <= capacity,
        after_events(PoolView::fresh(capacity), events).capacity == capacity,
    decreases events.len(),
{
    if events.len() > 0 {
        lemma_every_schedule_is_bounded(capacity, events.drop_last());
    }
}

/// With one slot, executions follow one another: while one request holds the slot any
/// other has to wait, and the release of the slot is what lets the next one in.
pub proof fn lemma_single_slot_serializes()
    ensures
        PoolView::fresh(1).grants(),
        PoolView::fresh(1).acquired().full(),
        PoolView::fresh(1).acquired().acquired() == PoolView::fresh(1).acquired(),
        PoolView::fresh(1).acquired().released() == PoolView::fresh(1),
{
}

/// A request that has to wait, or that finds the pool shut down, holds nothing: the pool
/// is as it was.
pub proof fn lemma_waiting_holds_no_slot(pool: PoolView)
    requires
        !pool.grants(),
    ensures
        pool.acquired() == pool,
{
}

/// Every way an execution ends gives the slot back: releasing what a granted request
/// took leaves the pool as it was before the request.
pub proof fn lemma_release_undoes_acquire(pool: PoolView)
    requires
        pool.wf(),
        pool.grants(),
    ensures
        pool.acquired().in_use == pool.in_use + 1,
        pool.acquired().released() == pool,
{
}

/// A permit that was acquired before an execution that halts goes back to the pool: the
/// request fails with the halt reason and no associated data, the pool holds as many
/// slots as before the request, and the next request is granted.
pub proof fn lemma_halt_gives_the_slot_back(
    pool: PoolView,
    tx: TransactionView,
    block: BlockContext,
    calls: Seq<CallTraceView>,
    report: ReportView,
    chain_head: u32,
)
    requires
        pool.wf(),
        pool.grants(),
        report.outcome is Halt,
    ensures
        completion(tx, block, calls, report, chain_head) == Err::<DoneView, ErrorView>(
            ErrorView::ExecutionHalted { reason: report.outcome->reason, data: Seq::empty() },
        ),
        pool.acquired().released() == pool,
        pool.acquired().released().grants(),
{
}

/// An error is reported as an internal error exactly when it lies with the node, and a
/// halt is reported as a rejected submission that carries the halt reason.
pub proof fn lemma_errors_as_reported(error: ErrorView)
    ensures
        error.internal() <==> error.surfaced() is InternalError,
        error matches ErrorView::ExecutionHalted { reason, data } ==> error.surfaced()
            == Web3ErrorView::SubmitTransactionError(reason, data),
{
}

/// A success is answered with its output and no revert reason, a revert with an empty
/// output and a reason, and a halt with no response at all.
pub proof fn lemma_classification_shapes(outcome: OutcomeView)
    ensures
        outcome matches OutcomeView::Success { output } ==> classification(outcome) == Ok::<
            (Seq<u8>, Option<Seq<char>>),
            ErrorView,
        >((output, None)),
        outcome is Revert ==> (classification(outcome) matches Ok(response) && response.0.len()
            == 0 && response.1 is Some),
        outcome matches OutcomeView::Halt { reason } ==> classification(outcome) == Err::<
            (Seq<u8>, Option<Seq<char>>),
            ErrorView,
        >(ErrorView::ExecutionHalted { reason, data: Seq::empty() }),
{
}

/// The trace of an executed call takes its gas limit, value and input from the
/// transaction, its gas used from the execution, and its nested calls from what was
/// captured.
pub proof fn lemma_trace_follows_transaction(
    tx: TransactionView,
    block: BlockContext,
    calls: Seq<CallTraceView>,
    report: ReportView,
    chain_head: u32,
)
    ensures
        completion(tx, block, calls, report, chain_head) matches Ok(done) ==> {
            &&& done.trace.gas == tx.gas_limit
            &&& done.trace.gas_used == report.gas_used
            &&& done.trace.value == tx.value
            &&& done.trace.input == tx.calldata
            &&& done.trace.calls == calls
            &&& done.staleness == context_diff(chain_head, block)
        },
{
}

/// A block that lies five blocks behind the chain head has staleness five, and the head
/// block itself has staleness zero.
pub proof fn lemma_staleness_of_block(block_number: u32)
    ensures
        block_number + 5 <= u32::MAX ==> block_diff((block_number + 5) as u32, block_number) == 5,
        block_diff(block_number, block_number) == 0,
{
}

/// The same holds of a call that was run against a block named by number or hash. A call
/// whose reference follows the chain head has staleness zero wherever the head is.
pub proof fn lemma_staleness_of_call(block: BlockContext, chain_head: u32)
    ensures
        !block.block_id.follows_head() && chain_head == block.resolved_block_number + 5
            ==> context_diff(chain_head, block) == 5,
        chain_head == block.resolved_block_number ==> context_diff(chain_head, block) == 0,
        block.block_id.follows_head() ==> context_diff(chain_head, block) == 0,
{
}

} // verus!
