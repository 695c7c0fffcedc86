use debug_trace::trace::{only_top_call, shape_all, CallTraceNode, ResultDebugCall, TraceOptions, U256};

fn leaf(gas: u32, input: Vec<u8>) -> CallTraceNode {
    CallTraceNode::new_high_level(gas, gas / 2, U256([gas as u64, 0, 0, 0]), input, vec![0xaa], None, vec![])
}

fn tree() -> CallTraceNode {
    let inner = CallTraceNode::new_high_level(
        30,
        12,
        U256([0, 0, 0, 0]),
        vec![1],
        vec![],
        Some("inner failed".to_string()),
        vec![leaf(10, vec![7, 7]), leaf(8, vec![])],
    );
    CallTraceNode::new_high_level(
        100,
        64,
        U256([5, 0, 0, 1]),
        vec![0xde, 0xad],
        vec![0xbe, 0xef],
        None,
        vec![inner, leaf(20, vec![9])],
    )
}

#[test]
fn absent_options_ask_for_the_whole_trace() {
    assert!(!only_top_call(None));
}

#[test]
fn options_say_whether_only_the_top_call_is_wanted() {
    assert!(only_top_call(Some(TraceOptions { only_top_call: true })));
    assert!(!only_top_call(Some(TraceOptions { only_top_call: false })));
}

#[test]
fn new_high_level_sets_every_field() {
    let node = CallTraceNode::new_high_level(
        21_000,
        1_234,
        U256([1, 2, 3, 4]),
        vec![1, 2],
        vec![3],
        Some("why".to_string()),
        vec![leaf(1, vec![])],
    );
    assert_eq!(node.gas, 21_000);
    assert_eq!(node.gas_used, 1_234);
    assert_eq!(node.value, U256([1, 2, 3, 4]));
    assert_eq!(node.input, vec![1, 2]);
    assert_eq!(node.output, vec![3]);
    assert_eq!(node.revert_reason, Some("why".to_string()));
    assert_eq!(node.calls, vec![leaf(1, vec![])]);
}

#[test]
fn shape_for_the_whole_trace_changes_nothing() {
    assert_eq!(tree().shape(false), tree());
}

#[test]
fn shape_for_the_top_call_drops_nested_calls_and_keeps_the_root() {
    let top = tree().shape(true);
    assert!(top.calls.is_empty());
    assert_eq!(top.gas, 100);
    assert_eq!(top.gas_used, 64);
    assert_eq!(top.value, U256([5, 0, 0, 1]));
    assert_eq!(top.input, vec![0xde, 0xad]);
    assert_eq!(top.output, vec![0xbe, 0xef]);
    assert_eq!(top.revert_reason, None);
}

#[test]
fn shape_for_the_top_call_of_a_leaf_is_the_leaf() {
    assert_eq!(leaf(3, vec![1]).shape(true), leaf(3, vec![1]));
}

#[test]
fn shape_all_keeps_the_order_of_the_traces() {
    let entries = shape_all(vec![leaf(1, vec![]), tree(), leaf(2, vec![4])], false);
    assert_eq!(
        entries,
        vec![
            ResultDebugCall { result: leaf(1, vec![]) },
            ResultDebugCall { result: tree() },
            ResultDebugCall { result: leaf(2, vec![4]) },
        ]
    );
}

#[test]
fn shape_all_for_the_top_call_cuts_every_trace() {
    let entries = shape_all(vec![tree(), leaf(2, vec![4]), tree()], true);
    assert_eq!(entries.len(), 3);
    for entry in &entries {
        assert!(entry.result.calls.is_empty());
    }
    assert_eq!(entries[0].result.gas, 100);
    assert_eq!(entries[1].result, leaf(2, vec![4]));
    assert_eq!(entries[2].result.input, vec![0xde, 0xad]);
}

#[test]
fn shape_all_of_no_traces_is_empty() {
    assert!(shape_all(vec![], true).is_empty());
    assert!(shape_all(vec![], false).is_empty());
}

#[test]
fn clone_copies_the_whole_tree() {
    let source = tree();
    let copy = source.clone();
    assert_eq!(copy, source);
    assert_eq!(copy.calls[0].calls[0], leaf(10, vec![7, 7]));
    assert_eq!(copy.calls[0].revert_reason, Some("inner failed".to_string()));
}
