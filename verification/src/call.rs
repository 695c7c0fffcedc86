//! Trace-by-call: one synchronous execution of a call, from block resolution to the
//! assembled trace.
//!
//! A request passes through its states in order: [`ResolvingBlock`], [`BuildingTx`],
//! [`AcquiringSlot`], [`Executing`], [`Classifying`], [`ExtractingTrace`], [`Assembling`],
//! [`Done`]. Each state is a type of its own, and a step takes the state and what the
//! outside world answered, and gives the next state or the error that ends the request.

use vstd::prelude::*;

use crate::block::{context_diff, diff_with_block_context, BlockContext, BlockReference};
use crate::capture::{extraction, TraceCaptureCell};
use crate::config::{SharedExecutionArgs, USED_BOOTLOADER_MEMORY_BYTES};
use crate::error::{step_view, DebugError, ErrorView, Method, StorageFailure};
use crate::namespace::DebugNamespace;
use crate::outcome::{classification, classify, ExecutionReport, ReportView};
use crate::pool::{ExecutionPermit, ExecutionSlotPool, SlotGrant};
use crate::trace::{nodes_view, text_view, CallTraceNode, CallTraceView, U256};

verus! {

/// What the orchestrator reads of the transaction that a call request makes.
#[derive(Clone, Debug, PartialEq, Eq)]
pub struct CallTransaction {
    /// The gas limit the transaction declares.
    pub gas_limit: u32,
    /// The value it transfers.
    pub value: U256,
    /// Its calldata.
    pub calldata: Vec<u8>,
}

/// The mathematical model of a [`CallTransaction`].
pub struct TransactionView {
    pub gas_limit: u32,
    pub value: U256,
    pub calldata: Seq<u8>,
}

impl View for CallTransaction {
    type V = TransactionView;

    open spec fn view(&self) -> TransactionView {
        TransactionView { gas_limit: self.gas_limit, value: self.value, calldata: self.calldata@ }
    }
}

/// A request whose block reference is being resolved.
#[derive(Clone, Copy, Debug, PartialEq, Eq)]
pub struct ResolvingBlock {
    /// The reference to resolve.
    pub block_id: BlockReference,
    pub only_top_call: bool,
}

/// A request whose transaction is being built from the call request.
#[derive(Clone, Copy, Debug, PartialEq, Eq)]
pub struct BuildingTx {
    pub block: BlockContext,
    pub only_top_call: bool,
}

/// A request that waits for an execution slot.
#[derive(Debug, PartialEq, Eq)]
pub struct AcquiringSlot {
    pub tx: CallTransaction,
    pub block: BlockContext,
    pub only_top_call: bool,
}

/// What the VM is invoked with, besides the transaction and the tracers.
#[derive(Clone, Copy, Debug, PartialEq, Eq)]
pub struct ExecutionOrder {
    pub shared_args: SharedExecutionArgs,
    pub block: BlockContext,
    pub vm_execution_cache_misses_limit: Option<usize>,
}

/// A request whose call is in the VM. It holds the permit for the execution and, unless
/// the top call alone was asked for, the capture cell that the VM's tracer writes.
#[derive(Debug)]
pub struct Executing {
    permit: ExecutionPermit,
    capture: Option<TraceCaptureCell>,
    tx: CallTransaction,
    block: BlockContext,
}

/// A request whose execution has returned and whose outcome is to be classified.
#[derive(Debug)]
pub struct Classifying {
    pub report: ExecutionReport,
    pub capture: Option<TraceCaptureCell>,
    pub tx: CallTransaction,
    pub block: BlockContext,
}

/// A request with a classified outcome whose captured calls are to be taken out.
#[derive(Debug)]
pub struct ExtractingTrace {
    pub output: Vec<u8>,
    pub revert_reason: Option<String>,
    pub gas_used: u32,
    pub capture: Option<TraceCaptureCell>,
    pub tx: CallTransaction,
    pub block: BlockContext,
}

/// A request whose trace is to be put together.
#[derive(Debug, PartialEq, Eq)]
pub struct Assembling {
    pub output: Vec<u8>,
    pub revert_reason: Option<String>,
    pub gas_used: u32,
    pub calls: Vec<CallTraceNode>,
    pub tx: CallTransaction,
    pub block: BlockContext,
}

/// The answer to a trace-by-call request, with the staleness to record for it.
#[derive(Clone, Debug, PartialEq, Eq)]
pub struct Done {
    pub trace: CallTraceNode,
    pub staleness: u32,
}

/// The mathematical model of a [`Done`].
pub struct DoneView {
    pub trace: CallTraceView,
    pub staleness: u32,
}

impl View for Done {
    type V = DoneView;

    open spec fn view(&self) -> DoneView {
        DoneView { trace: self.trace@, staleness: self.staleness }
    }
}

/// The pool's answer to a request that waits for a slot.
#[derive(Debug)]
pub enum Admission {
    /// The slot is held: the VM is to be invoked as `order` says.
    Granted { executing: Executing, order: ExecutionOrder },
    /// Every slot is held: the request waits on, unchanged, until a slot is released.
    Wait(AcquiringSlot),
    /// The pool has been shut down: the request fails.
    Closed(DebugError),
}

/// The nested calls that an execution gives: those written into its capture cell, or
/// none where nothing was written or no cell was attached.
pub open spec fn captured_calls(capture: Option<TraceCaptureCell>) -> Seq<CallTraceView> {
    match capture {
        Some(cell) => extraction(cell.captured()),
        None => Seq::empty(),
    }
}

/// The model of the root frame of a call: what its transaction declared, what its
/// execution reported, and the nested calls.
pub open spec fn high_level_call(
    tx: TransactionView,
    gas_used: u32,
    output: Seq<u8>,
    revert_reason: Option<Seq<char>>,
    calls: Seq<CallTraceView>,
) -> CallTraceView {
    CallTraceView {
        gas: tx.gas_limit,
        gas_used,
        value: tx.value,
        input: tx.calldata,
        output,
        revert_reason,
        calls,
    }
}

/// The model of what the last step of a request answers.
pub open spec fn done_view(answer: Result<Done, DebugError>) -> Result<DoneView, ErrorView> {
    match answer {
        Ok(done) => Ok(done@),
        Err(error) => Err(error@),
    }
}

/// The answer to a call whose execution reported `report`, with `calls` captured under
/// it, when the chain head is at `chain_head`: the error of a halt, or else the root
/// frame with the classified output and revert reason, and the staleness of the block.
pub open spec fn completion(
    tx: TransactionView,
    block: BlockContext,
    calls: Seq<CallTraceView>,
    report: ReportView,
    chain_head: u32,
) -> Result<DoneView, ErrorView> {
    match classification(report.outcome) {
        Ok((output, revert_reason)) => Ok(
            DoneView {
                trace: high_level_call(tx, report.gas_used, output, revert_reason, calls),
                staleness: context_diff(chain_head, block),
            },
        ),
        Err(error) => Err(error),
    }
}

impl ResolvingBlock {
    /// Where the request goes once the resolver has answered: on to building the
    /// transaction, against the block that the reference resolved to; `BlockNotFound`
    /// where the reference names no block; an internal error where storage failed.
    pub open spec fn after_resolution(
        self,
        resolution: Result<Option<u32>, StorageFailure>,
    ) -> Result<BuildingTx, ErrorView> {
        match resolution {
            Ok(Some(resolved_block_number)) => Ok(
                BuildingTx {
                    block: BlockContext { block_id: self.block_id, resolved_block_number },
                    only_top_call: self.only_top_call,
                },
            ),
            Ok(None) => Err(ErrorView::BlockNotFound),
            Err(_) => Err(ErrorView::StorageUnavailable(Method::TraceCall)),
        }
    }

    /// Takes the resolver's answer: the number of the block, or `None` for no such block.
    pub fn resolved(
        self,
        resolution: Result<Option<u32>, StorageFailure>,
    ) -> (step: Result<BuildingTx, DebugError>)
        ensures
            step_view(step) == self.after_resolution(resolution),
    {
        match resolution {
            Ok(Some(resolved_block_number)) => Ok(
                BuildingTx {
                    block: BlockContext { block_id: self.block_id, resolved_block_number },
                    only_top_call: self.only_top_call,
                },
            ),
            Ok(None) => Err(DebugError::BlockNotFound),
            Err(_) => Err(DebugError::StorageUnavailable(Method::TraceCall)),
        }
    }
}

impl BuildingTx {
    /// The largest encoded size, in bytes, that the transaction may have.
    pub fn max_tx_size(&self) -> (bound: usize)
        ensures
            bound == USED_BOOTLOADER_MEMORY_BYTES,
    {
        USED_BOOTLOADER_MEMORY_BYTES
    }

    /// Where the request goes once the transaction was built, or was refused with the
    /// given words: on to waiting for a slot, or to `MalformedRequest` with those words.
    pub open spec fn after_build(
        self,
        built: Result<CallTransaction, String>,
    ) -> Result<AcquiringSlot, ErrorView> {
        match built {
            Ok(tx) => Ok(
                AcquiringSlot { tx, block: self.block, only_top_call: self.only_top_call },
            ),
            Err(why) => Err(ErrorView::MalformedRequest(why@)),
        }
    }

    /// Takes the transaction that the call request made, or the words with which the
    /// request was refused.
    pub fn built(
        self,
        built: Result<CallTransaction, String>,
    ) -> (step: Result<AcquiringSlot, DebugError>)
        ensures
            step_view(step) == self.after_build(built),
    {
        match built {
            Ok(tx) => Ok(
                AcquiringSlot { tx, block: self.block, only_top_call: self.only_top_call },
            ),
            Err(why) => Err(DebugError::MalformedRequest(why)),
        }
    }
}

impl AcquiringSlot {
    /// Asks the pool for an execution slot, without waiting.
    ///
    /// Where a slot is free the request holds it from now on and the VM is to be invoked:
    /// with the arguments that every debug call gets, the block that was resolved and the
    /// sender's limit on cache misses. The request is instrumented, with an empty capture
    /// cell, unless it asked for the top call alone. Where every slot is held the request
    /// comes back unchanged, and where the pool was shut down it fails with
    /// `AdmissionClosed`; neither changes the pool.
    pub fn acquire(
        self,
        namespace: &DebugNamespace,
        pool: &mut ExecutionSlotPool,
    ) -> (admission: Admission)
        ensures
            final(pool)@ == old(pool)@.acquired(),
            final(pool)@.wf(),
            match admission {
                Admission::Granted { executing, order } => {
                    &&& old(pool)@.grants()
                    &&& executing.tx() == self.tx
                    &&& executing.block() == self.block
                    &&& executing.instrumented() == !self.only_top_call
                    &&& executing.captured() is None
                    &&& order.shared_args.for_debug_call(
                        namespace.state(),
                        namespace.api_contracts(),
                    )
                    &&& order.block == self.block
                    &&& order.vm_execution_cache_misses_limit
                        == namespace.state().sender_config.vm_execution_cache_misses_limit
                },
                Admission::Wait(waiting) => old(pool)@.full() && waiting == self,
                Admission::Closed(error) => old(pool)@.closed && error@
                    == ErrorView::AdmissionClosed,
            },
    {
        match pool.try_acquire() {
            SlotGrant::Granted(permit) => {
                let order = ExecutionOrder {
                    shared_args: namespace.shared_args(),
                    block: self.block,
                    vm_execution_cache_misses_limit:
                        namespace.sender_config().vm_execution_cache_misses_limit,
                };
                let capture = if self.only_top_call {
                    None
                } else {
                    Some(TraceCaptureCell::new())
                };
                let executing = Executing { permit, capture, tx: self.tx, block: self.block };
                Admission::Granted { executing, order }
            },
            SlotGrant::Busy => Admission::Wait(self),
            SlotGrant::Closed => Admission::Closed(DebugError::AdmissionClosed),
        }
    }
}

impl Executing {
    /// The transaction that is executed.
    pub closed spec fn tx(&self) -> CallTransaction {
        self.tx
    }

    /// The block that it is executed against.
    pub closed spec fn block(&self) -> BlockContext {
        self.block
    }

    /// The capture cell of the execution, if it has one.
    pub closed spec fn capture(&self) -> Option<TraceCaptureCell> {
        self.capture
    }

    /// Whether a capture cell is attached to the execution.
    pub open spec fn instrumented(&self) -> bool {
        self.capture() is Some
    }

    /// The nested calls that the tracer has written, if it has written any.
    pub open spec fn captured(&self) -> Option<Seq<CallTraceView>> {
        match self.capture() {
            Some(cell) => cell.captured(),
            None => None,
        }
    }

    /// The nested calls that the execution gives: those written by the tracer, or none.
    pub open spec fn calls(&self) -> Seq<CallTraceView> {
        captured_calls(self.capture())
    }

    /// The tracer to hand to the VM for the time of the call: the capture cell, or
    /// nothing where the top call alone was asked for. What the tracer writes is what
    /// the execution has captured.
    pub fn tracer(&mut self) -> (tracer: Option<&mut TraceCaptureCell>)
        ensures
            final(self).tx() == old(self).tx(),
            final(self).block() == old(self).block(),
            match tracer {
                Some(cell) => old(self).capture() == Some(*cell) && final(self).capture()
                    == Some(*final(cell)),
                None => old(self).capture() is None && final(self).capture() is None,
            },
    {
        self.capture.as_mut()
    }

    /// The call has returned from the VM with `report`: the permit goes back to the pool,
    /// whatever the report says.
    pub fn finished(
        self,
        pool: &mut ExecutionSlotPool,
        report: ExecutionReport,
    ) -> (next: Classifying)
        ensures
            final(pool)@ == old(pool)@.released(),
            final(pool)@.wf(),
            next.report == report,
            next.capture == self.capture(),
            next.tx == self.tx(),
            next.block == self.block(),
    {
        let Executing { permit, capture, tx, block } = self;
        pool.release(permit);
        Classifying { report, capture, tx, block }
    }

    /// The call is given up before the VM has reported: the permit goes back to the pool
    /// and what was captured is dropped.
    pub fn abandon(self, pool: &mut ExecutionSlotPool)
        ensures
            final(pool)@ == old(pool)@.released(),
            final(pool)@.wf(),
    {
        let Executing { permit, capture: _, tx: _, block: _ } = self;
        pool.release(permit);
    }

    /// The call has returned from the VM with `report`, and the chain head is at
    /// `chain_head`: releases the permit, classifies the outcome, takes the captured
    /// calls and assembles the trace. A halt ends the request with its error and no
    /// trace; the permit is released all the same.
    pub fn complete(
        self,
        pool: &mut ExecutionSlotPool,
        report: ExecutionReport,
        chain_head: u32,
    ) -> (answer: Result<Done, DebugError>)
        ensures
            final(pool)@ == old(pool)@.released(),
            final(pool)@.wf(),
            done_view(answer) == completion(
                self.tx()@,
                self.block(),
                self.calls(),
                report@,
                chain_head,
            ),
            !self.instrumented() ==> (answer matches Ok(done) ==> done.trace@.calls.len() == 0),
    {
        match self.finished(pool, report).classify() {
            Ok(extracting) => Ok(extracting.extract().assemble(chain_head)),
            Err(error) => Err(error),
        }
    }
}

impl Classifying {
    /// Classifies the outcome: a success or a revert goes on with the output and revert
    /// reason of the response, a halt ends the request with its error.
    pub fn classify(self) -> (step: Result<ExtractingTrace, DebugError>)
        ensures
            match classification(self.report.outcome@) {
                Ok((output, revert_reason)) => {
                    &&& step matches Ok(next)
                    &&& next.output@ == output
                    &&& text_view(next.revert_reason) == revert_reason
                    &&& next.gas_used == self.report.gas_used
                    &&& next.capture == self.capture
                    &&& next.tx == self.tx
                    &&& next.block == self.block
                },
                Err(error) => step matches Err(e) && e@ == error,
            },
    {
        let Classifying { report, capture, tx, block } = self;
        let ExecutionReport { outcome, gas_used } = report;
        match classify(outcome) {
            Ok((output, revert_reason)) => Ok(
                ExtractingTrace { output, revert_reason, gas_used, capture, tx, block },
            ),
            Err(error) => Err(error),
        }
    }
}

impl ExtractingTrace {
    /// Takes the captured calls out of the capture cell: those that the tracer wrote, or
    /// none where it wrote nothing or no cell was attached.
    pub fn extract(self) -> (next: Assembling)
        ensures
            nodes_view(next.calls@) == captured_calls(self.capture),
            next.output == self.output,
            next.revert_reason == self.revert_reason,
            next.gas_used == self.gas_used,
            next.tx == self.tx,
            next.block == self.block,
    {
        let ExtractingTrace { output, revert_reason, gas_used, capture, tx, block } = self;
        let calls = match capture {
            Some(cell) => cell.extract(),
            None => Vec::new(),
        };
        Assembling { output, revert_reason, gas_used, calls, tx, block }
    }
}

impl Assembling {
    /// Puts the trace together and measures the staleness of the block that the call was
    /// run against, with the chain head at `chain_head`.
    pub fn assemble(self, chain_head: u32) -> (done: Done)
        ensures
            done@ == (DoneView {
                trace: high_level_call(
                    self.tx@,
                    self.gas_used,
                    self.output@,
                    text_view(self.revert_reason),
                    nodes_view(self.calls@),
                ),
                staleness: context_diff(chain_head, self.block),
            }),
    {
        let Assembling { output, revert_reason, gas_used, calls, tx, block } = self;
        let trace = CallTraceNode::new_high_level(
            tx.gas_limit,
            gas_used,
            tx.value,
            tx.calldata,
            output,
            revert_reason,
            calls,
        );
        let staleness = diff_with_block_context(chain_head, &block);
        Done { trace, staleness }
    }
}

} // verus!
