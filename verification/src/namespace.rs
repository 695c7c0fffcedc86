//! The debug namespace: the node's settings and the entry points of the three handlers.

use vstd::prelude::*;

use crate::block::BlockReference;
use crate::call::ResolvingBlock;
use crate::config::{
    AccountTreeId, ApiContracts, RpcState, SharedExecutionArgs, TxSenderConfig, BLOCK_GAS_LIMIT,
    DEBUG_L1_GAS_PRICE,
};
use crate::error::{DebugError, Method, StorageFailure};
use crate::replay::{lookup_view, transaction_trace, transaction_trace_view, ResolvingTraceBlock};
use crate::trace::{only_top_call, wants_only_top_call, CallTraceNode, TraceOptions};

verus! {

/// The debug namespace of one node.
#[derive(Clone, Copy, Debug)]
pub struct DebugNamespace {
    state: RpcState,
    api_contracts: ApiContracts,
}

impl DebugNamespace {
    /// The node state that the namespace was made with.
    pub closed spec fn state(&self) -> RpcState {
        self.state
    }

    /// The API contracts that the namespace was made with.
    pub closed spec fn api_contracts(&self) -> ApiContracts {
        self.api_contracts
    }

    /// The namespace of a node with the given state and API contracts.
    pub fn new(state: RpcState, api_contracts: ApiContracts) -> (namespace: Self)
        ensures
            namespace.state() == state,
            namespace.api_contracts() == api_contracts,
    {
        DebugNamespace { state, api_contracts }
    }

    /// The settings of the transaction sender.
    pub fn sender_config(&self) -> (config: &TxSenderConfig)
        ensures
            *config == self.state().sender_config,
    {
        &self.state.sender_config
    }

    /// The arguments that a debug call is executed with, made anew for each call.
    pub fn shared_args(&self) -> (args: SharedExecutionArgs)
        ensures
            args.for_debug_call(self.state(), self.api_contracts()),
    {
        let sender_config = self.sender_config();
        SharedExecutionArgs {
            operator_account: AccountTreeId::default(),
            l1_gas_price: DEBUG_L1_GAS_PRICE,
            fair_l2_gas_price: sender_config.fair_l2_gas_price,
            base_system_contracts: self.api_contracts.eth_call,
            caches: self.state.storage_caches,
            validation_computational_gas_limit: BLOCK_GAS_LIMIT,
            chain_id: sender_config.chain_id,
        }
    }

    /// Starts a trace-by-block request: the block reference is to be resolved next.
    pub fn debug_trace_block_impl(
        &self,
        block_id: BlockReference,
        options: Option<TraceOptions>,
    ) -> (request: ResolvingTraceBlock)
        ensures
            request == (ResolvingTraceBlock {
                block_id,
                only_top_call: wants_only_top_call(options),
            }),
    {
        ResolvingTraceBlock { block_id, only_top_call: only_top_call(options) }
    }

    /// Answers a trace-by-transaction request from what the lookup of the transaction's
    /// persisted trace gave. A transaction without a persisted trace is answered with
    /// `None`, not with an error.
    pub fn debug_trace_transaction_impl(
        &self,
        lookup: Result<Option<CallTraceNode>, StorageFailure>,
        options: Option<TraceOptions>,
    ) -> (answer: Result<Option<CallTraceNode>, DebugError>)
        ensures
            transaction_trace_view(answer) == transaction_trace(
                lookup_view(lookup),
                wants_only_top_call(options),
            ),
    {
        let only_top_call = only_top_call(options);
        match lookup {
            Ok(Some(trace)) => Ok(Some(trace.shape(only_top_call))),
            Ok(None) => Ok(None),
            Err(_) => Err(DebugError::StorageUnavailable(Method::TraceTransaction)),
        }
    }

    /// Starts a trace-by-call request against the given block, or against the pending
    /// block where none is given: the block reference is to be resolved next.
    pub fn debug_trace_call_impl(
        &self,
        block_id: Option<BlockReference>,
        options: Option<TraceOptions>,
    ) -> (request: ResolvingBlock)
        ensures
            request == (ResolvingBlock {
                block_id: BlockReference::or_pending(block_id),
                only_top_call: wants_only_top_call(options),
            }),
    {
        let block_id = match block_id {
            Some(block_id) => block_id,
            None => BlockReference::Pending,
        };
        ResolvingBlock { block_id, only_top_call: only_top_call(options) }
    }
}

} // verus!
