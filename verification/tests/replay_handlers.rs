use debug_trace::block::BlockReference;
use debug_trace::config::{ApiContracts, BaseSystemContracts, RpcState, StorageCaches, TxSenderConfig};
use debug_trace::error::{DebugError, Method, StorageFailure};
use debug_trace::namespace::DebugNamespace;
use debug_trace::replay::{BlockTraces, FetchingTraces, ResolvingTraceBlock};
use debug_trace::trace::{CallTraceNode, ResultDebugCall, TraceOptions, U256};

fn namespace() -> DebugNamespace {
    let contracts = BaseSystemContracts { bootloader: [1; 32], default_aa: [2; 32] };
    DebugNamespace::new(
        RpcState {
            sender_config: TxSenderConfig {
                fair_l2_gas_price: 250_000_000,
                chain_id: 270,
                vm_execution_cache_misses_limit: None,
            },
            storage_caches: StorageCaches(1),
        },
        ApiContracts { estimate_gas: contracts, eth_call: contracts },
    )
}

fn leaf(gas: u32) -> CallTraceNode {
    CallTraceNode::new_high_level(gas, 1, U256([0, 0, 0, 0]), vec![gas as u8], vec![], None, vec![])
}

fn nested(gas: u32) -> CallTraceNode {
    CallTraceNode::new_high_level(gas, 2, U256([7, 0, 0, 0]), vec![], vec![1], None, vec![leaf(1), leaf(2)])
}

const TOP: Option<TraceOptions> = Some(TraceOptions { only_top_call: true });

#[test]
fn trace_block_starts_by_resolving_the_block() {
    let request = namespace().debug_trace_block_impl(BlockReference::Number(12), None);
    assert_eq!(request, ResolvingTraceBlock { block_id: BlockReference::Number(12), only_top_call: false });
    let request = namespace().debug_trace_block_impl(BlockReference::Hash([3; 32]), TOP);
    assert_eq!(request, ResolvingTraceBlock { block_id: BlockReference::Hash([3; 32]), only_top_call: true });
}

#[test]
fn trace_block_of_unknown_block_is_block_not_found() {
    let request = namespace().debug_trace_block_impl(BlockReference::Number(99), None);
    assert_eq!(request.resolved(Ok(None)), Err(DebugError::BlockNotFound));
    let request = namespace().debug_trace_block_impl(BlockReference::Hash([0; 32]), TOP);
    assert_eq!(request.resolved(Ok(None)), Err(DebugError::BlockNotFound));
}

#[test]
fn trace_block_resolution_failure_is_internal() {
    let request = namespace().debug_trace_block_impl(BlockReference::Latest, None);
    let error = request.resolved(Err(StorageFailure)).unwrap_err();
    assert_eq!(error, DebugError::StorageUnavailable(Method::TraceBlock));
    assert!(error.is_internal());
}

#[test]
fn trace_block_goes_on_to_fetch_the_resolved_block() {
    let request = namespace().debug_trace_block_impl(BlockReference::Latest, TOP);
    assert_eq!(request.resolved(Ok(Some(41))), Ok(FetchingTraces { block_number: 41, only_top_call: true }));
}

#[test]
fn trace_block_returns_traces_in_storage_order() {
    let fetching = FetchingTraces { block_number: 10, only_top_call: false };
    let answer = fetching.fetched(Ok(vec![nested(9), leaf(3), nested(4)]), 10).unwrap();
    assert_eq!(
        answer,
        BlockTraces {
            traces: vec![
                ResultDebugCall { result: nested(9) },
                ResultDebugCall { result: leaf(3) },
                ResultDebugCall { result: nested(4) },
            ],
            staleness: 0,
        }
    );
}

#[test]
fn trace_block_with_only_top_call_has_no_nested_calls() {
    let fetching = FetchingTraces { block_number: 10, only_top_call: true };
    let answer = fetching.fetched(Ok(vec![nested(9), leaf(3)]), 12).unwrap();
    assert_eq!(answer.traces.len(), 2);
    assert!(answer.traces[0].result.calls.is_empty());
    assert_eq!(answer.traces[0].result.gas, 9);
    assert_eq!(answer.traces[0].result.value, U256([7, 0, 0, 0]));
    assert_eq!(answer.traces[0].result.output, vec![1]);
    assert_eq!(answer.traces[1].result, leaf(3));
}

#[test]
fn trace_block_of_empty_block_is_empty() {
    let fetching = FetchingTraces { block_number: 10, only_top_call: false };
    assert_eq!(fetching.fetched(Ok(vec![]), 10), Ok(BlockTraces { traces: vec![], staleness: 0 }));
}

#[test]
fn trace_block_staleness_is_the_distance_to_the_head() {
    let fetching = FetchingTraces { block_number: 100, only_top_call: false };
    assert_eq!(fetching.fetched(Ok(vec![]), 105).unwrap().staleness, 5);
    assert_eq!(fetching.fetched(Ok(vec![]), 100).unwrap().staleness, 0);
    assert_eq!(fetching.fetched(Ok(vec![]), u32::MAX).unwrap().staleness, u32::MAX - 100);
}

#[test]
fn trace_block_ahead_of_the_head_is_not_stale() {
    let fetching = FetchingTraces { block_number: 100, only_top_call: false };
    assert_eq!(fetching.fetched(Ok(vec![]), 99).unwrap().staleness, 0);
    assert_eq!(fetching.fetched(Ok(vec![]), 0).unwrap().staleness, 0);
}

#[test]
fn trace_block_fetch_failure_is_internal() {
    let fetching = FetchingTraces { block_number: 10, only_top_call: false };
    assert_eq!(
        fetching.fetched(Err(StorageFailure), 10),
        Err(DebugError::StorageUnavailable(Method::TraceBlock))
    );
}

#[test]
fn trace_transaction_without_persisted_trace_is_none() {
    assert_eq!(namespace().debug_trace_transaction_impl(Ok(None), None), Ok(None));
    assert_eq!(namespace().debug_trace_transaction_impl(Ok(None), TOP), Ok(None));
}

#[test]
fn trace_transaction_returns_the_persisted_trace() {
    assert_eq!(namespace().debug_trace_transaction_impl(Ok(Some(nested(5))), None), Ok(Some(nested(5))));
    let whole = Some(TraceOptions { only_top_call: false });
    assert_eq!(namespace().debug_trace_transaction_impl(Ok(Some(nested(5))), whole), Ok(Some(nested(5))));
}

#[test]
fn trace_transaction_with_only_top_call_has_no_nested_calls() {
    let answer = namespace().debug_trace_transaction_impl(Ok(Some(nested(5))), TOP).unwrap().unwrap();
    assert!(answer.calls.is_empty());
    assert_eq!(answer.gas, 5);
    assert_eq!(answer.gas_used, 2);
    assert_eq!(answer.output, vec![1]);
}

#[test]
fn trace_transaction_storage_failure_is_internal() {
    assert_eq!(
        namespace().debug_trace_transaction_impl(Err(StorageFailure), None),
        Err(DebugError::StorageUnavailable(Method::TraceTransaction))
    );
}
