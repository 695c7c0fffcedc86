//! Trace-by-block and trace-by-transaction: replaying persisted traces.

use vstd::prelude::*;

use crate::block::{block_diff, diff, BlockReference};
use crate::error::{step_view, DebugError, ErrorView, Method, StorageFailure};
use crate::trace::{
    nodes_view, results_view, shape_all, shaped, shaped_all, CallTraceNode, CallTraceView,
    ResultDebugCall,
};

verus! {

/// A trace-by-block request whose block reference is being resolved.
#[derive(Clone, Copy, Debug, PartialEq, Eq)]
pub struct ResolvingTraceBlock {
    /// The reference to resolve.
    pub block_id: BlockReference,
    pub only_top_call: bool,
}

/// A trace-by-block request whose traces are being fetched from storage.
#[derive(Clone, Copy, Debug, PartialEq, Eq)]
pub struct FetchingTraces {
    /// The number of the block whose traces to fetch.
    pub block_number: u32,
    pub only_top_call: bool,
}

/// The answer to a trace-by-block request, with the staleness to record for it.
#[derive(Clone, Debug, PartialEq, Eq)]
pub struct BlockTraces {
    /// One entry for each transaction of the block, in the order of storage.
    pub traces: Vec<ResultDebugCall>,
    /// How far the block lies behind the chain head.
    pub staleness: u32,
}

/// The model of a [`BlockTraces`]: the models of its traces, and the staleness.
pub struct BlockTracesView {
    pub traces: Seq<CallTraceView>,
    pub staleness: u32,
}

impl View for BlockTraces {
    type V = BlockTracesView;

    open spec fn view(&self) -> BlockTracesView {
        BlockTracesView { traces: results_view(self.traces@), staleness: self.staleness }
    }
}

/// The model of what storage gave for the traces of a block.
pub open spec fn fetched_view(
    fetched: Result<Vec<CallTraceNode>, StorageFailure>,
) -> Result<Seq<CallTraceView>, StorageFailure> {
    match fetched {
        Ok(traces) => Ok(nodes_view(traces@)),
        Err(failure) => Err(failure),
    }
}

/// The model of what trace-by-block answers.
pub open spec fn block_traces_view(
    answer: Result<BlockTraces, DebugError>,
) -> Result<BlockTracesView, ErrorView> {
    match answer {
        Ok(traces) => Ok(traces@),
        Err(error) => Err(error@),
    }
}

/// The model of what a lookup of a transaction's persisted trace gave.
pub open spec fn lookup_view(
    lookup: Result<Option<CallTraceNode>, StorageFailure>,
) -> Result<Option<CallTraceView>, StorageFailure> {
    match lookup {
        Ok(Some(trace)) => Ok(Some(trace@)),
        Ok(None) => Ok(None),
        Err(failure) => Err(failure),
    }
}

/// The model of what trace-by-transaction answers.
pub open spec fn transaction_trace_view(
    answer: Result<Option<CallTraceNode>, DebugError>,
) -> Result<Option<CallTraceView>, ErrorView> {
    match answer {
        Ok(Some(trace)) => Ok(Some(trace@)),
        Ok(None) => Ok(None),
        Err(error) => Err(error@),
    }
}

/// What trace-by-transaction answers to a lookup: the persisted trace, shaped by
/// `only_top_call`; nothing, and no error, where no trace is persisted; an internal
/// error where storage failed.
pub open spec fn transaction_trace(
    lookup: Result<Option<CallTraceView>, StorageFailure>,
    only_top_call: bool,
) -> Result<Option<CallTraceView>, ErrorView> {
    match lookup {
        Ok(Some(trace)) => Ok(Some(shaped(trace, only_top_call))),
        Ok(None) => Ok(None),
        Err(_) => Err(ErrorView::StorageUnavailable(Method::TraceTransaction)),
    }
}

impl ResolvingTraceBlock {
    /// Where the request goes once the resolver has answered: on to fetching the traces
    /// of the block it resolved to; `BlockNotFound` where the reference names no block;
    /// an internal error where storage failed.
    pub open spec fn after_resolution(
        self,
        resolution: Result<Option<u32>, StorageFailure>,
    ) -> Result<FetchingTraces, ErrorView> {
        match resolution {
            Ok(Some(block_number)) => Ok(
                FetchingTraces { block_number, only_top_call: self.only_top_call },
            ),
            Ok(None) => Err(ErrorView::BlockNotFound),
            Err(_) => Err(ErrorView::StorageUnavailable(Method::TraceBlock)),
        }
    }

    /// Takes the resolver's answer: the number of the block, or `None` for no such block.
    pub fn resolved(
        self,
        resolution: Result<Option<u32>, StorageFailure>,
    ) -> (step: Result<FetchingTraces, DebugError>)
        ensures
            step_view(step) == self.after_resolution(resolution),
    {
        match resolution {
            Ok(Some(block_number)) => Ok(
                FetchingTraces { block_number, only_top_call: self.only_top_call },
            ),
            Ok(None) => Err(DebugError::BlockNotFound),
            Err(_) => Err(DebugError::StorageUnavailable(Method::TraceBlock)),
        }
    }
}

impl FetchingTraces {
    /// The answer to the request once storage has answered: the block's traces in the
    /// order of storage, each shaped by `only_top_call`, with the distance from the block
    /// to the chain head as staleness; an internal error where storage failed.
    pub open spec fn after_fetch(
        self,
        fetched: Result<Seq<CallTraceView>, StorageFailure>,
        chain_head: u32,
    ) -> Result<BlockTracesView, ErrorView> {
        match fetched {
            Ok(traces) => Ok(
                BlockTracesView {
                    traces: shaped_all(traces, self.only_top_call),
                    staleness: block_diff(chain_head, self.block_number),
                },
            ),
            Err(_) => Err(ErrorView::StorageUnavailable(Method::TraceBlock)),
        }
    }

    /// Takes the persisted traces of the block and the number of the chain head.
    pub fn fetched(
        self,
        fetched: Result<Vec<CallTraceNode>, StorageFailure>,
        chain_head: u32,
    ) -> (answer: Result<BlockTraces, DebugError>)
        ensures
            block_traces_view(answer) == self.after_fetch(fetched_view(fetched), chain_head),
    {
        match fetched {
            Ok(traces) => {
                let traces = shape_all(traces, self.only_top_call);
                let staleness = diff(chain_head, self.block_number);
                Ok(BlockTraces { traces, staleness })
            },
            Err(_) => Err(DebugError::StorageUnavailable(Method::TraceBlock)),
        }
    }
}

} // verus!
