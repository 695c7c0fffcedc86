//! The call-trace tree, its mathematical model, and the top-call-only truncation.

use vstd::prelude::*;

verus! {

/// A 256-bit word, least significant limb first.
#[derive(Clone, Copy, Debug, PartialEq, Eq)]
pub struct U256(pub [u64; 4]);

/// One frame of a call trace with the frames nested under it, in call order.
#[derive(Debug, PartialEq, Eq)]
pub struct CallTraceNode {
    /// Gas limit of the frame.
    pub gas: u32,
    /// Gas the frame spent.
    pub gas_used: u32,
    /// Value transferred with the call.
    pub value: U256,
    /// Calldata.
    pub input: Vec<u8>,
    /// Returned data.
    pub output: Vec<u8>,
    /// Why the frame reverted, if it did.
    pub revert_reason: Option<String>,
    /// The frames called from this one.
    pub calls: Vec<CallTraceNode>,
}

/// The mathematical model of a [`CallTraceNode`].
pub struct CallTraceView {
    pub gas: u32,
    pub gas_used: u32,
    pub value: U256,
    pub input: Seq<u8>,
    pub output: Seq<u8>,
    pub revert_reason: Option<Seq<char>>,
    pub calls: Seq<CallTraceView>,
}

/// The characters of an optional text.
pub open spec fn text_view(text: Option<String>) -> Option<Seq<char>> {
    match text {
        Some(s) => Some(s@),
        None => None,
    }
}

/// The model of one node: its own fields and the models of its children.
pub open spec fn node_view(node: CallTraceNode) -> CallTraceView
    decreases node,
{
    CallTraceView {
        gas: node.gas,
        gas_used: node.gas_used,
        value: node.value,
        input: node.input@,
        output: node.output@,
        revert_reason: text_view(node.revert_reason),
        calls: nodes_view(node.calls@),
    }
}

/// The models of a sequence of nodes, in the same order.
pub open spec fn nodes_view(nodes: Seq<CallTraceNode>) -> Seq<CallTraceView>
    decreases nodes,
{
    if nodes.len() == 0 {
        Seq::empty()
    } else {
        nodes_view(nodes.drop_last()).push(node_view(nodes.last()))
    }
}

impl View for CallTraceNode {
    type V = CallTraceView;

    open spec fn view(&self) -> CallTraceView {
        node_view(*self)
    }
}

/// `nodes_view` keeps the length and models each node in its place.
pub proof fn lemma_nodes_view(nodes: Seq<CallTraceNode>)
    ensures
        nodes_view(nodes).len() == nodes.len(),
        forall|i: int|
            0 <= i < nodes.len() ==> #[trigger] nodes_view(nodes)[i] == node_view(nodes[i]),
    decreases nodes.len(),
{
    if nodes.len() > 0 {
        lemma_nodes_view(nodes.drop_last());
    }
}

/// `nodes_view` of a sequence with one more node at its end.
pub proof fn lemma_nodes_view_push(nodes: Seq<CallTraceNode>, node: CallTraceNode)
    ensures
        nodes_view(nodes.push(node)) == nodes_view(nodes).push(node_view(node)),
{
    assert(nodes.push(node).drop_last() =~= nodes);
}

/// The model of a trace cut down to its root: every field kept, no nested call.
pub open spec fn top_call_of(trace: CallTraceView) -> CallTraceView {
    CallTraceView { calls: Seq::empty(), ..trace }
}

/// The model of a trace as a request with the given `only_top_call` gets it.
pub open spec fn shaped(trace: CallTraceView, only_top_call: bool) -> CallTraceView {
    if only_top_call {
        top_call_of(trace)
    } else {
        trace
    }
}

/// How a trace is to be reported.
#[derive(Clone, Copy, Debug, PartialEq, Eq)]
pub struct TraceOptions {
    /// Report the outermost call alone.
    pub only_top_call: bool,
}

/// Whether the options ask for the top call alone; absent options do not.
pub open spec fn wants_only_top_call(options: Option<TraceOptions>) -> bool {
    match options {
        Some(options) => options.only_top_call,
        None => false,
    }
}

/// Whether the options ask for the top call alone; absent options do not.
pub fn only_top_call(options: Option<TraceOptions>) -> (only: bool)
    ensures
        only == wants_only_top_call(options),
{
    match options {
        Some(options) => options.only_top_call,
        None => false,
    }
}

/// One entry of a block's trace: the trace of one of its transactions.
#[derive(Clone, Debug, PartialEq, Eq)]
pub struct ResultDebugCall {
    pub result: CallTraceNode,
}

impl CallTraceNode {
    /// The root frame of a transaction, from what the transaction declared, what its
    /// execution reported and the nested calls that were captured.
    pub fn new_high_level(
        gas: u32,
        gas_used: u32,
        value: U256,
        input: Vec<u8>,
        output: Vec<u8>,
        revert_reason: Option<String>,
        calls: Vec<CallTraceNode>,
    ) -> (node: Self)
        ensures
            node@ == (CallTraceView {
                gas,
                gas_used,
                value,
                input: input@,
                output: output@,
                revert_reason: text_view(revert_reason),
                calls: nodes_view(calls@),
            }),
    {
        CallTraceNode { gas, gas_used, value, input, output, revert_reason, calls }
    }

    /// The trace as a request with the given `only_top_call` gets it: whole, or with its
    /// nested calls dropped and its own fields kept.
    pub fn shape(self, only_top_call: bool) -> (trace: Self)
        ensures
            trace@ == shaped(self@, only_top_call),
    {
        if only_top_call {
            CallTraceNode {
                gas: self.gas,
                gas_used: self.gas_used,
                value: self.value,
                input: self.input,
                output: self.output,
                revert_reason: self.revert_reason,
                calls: Vec::new(),
            }
        } else {
            self
        }
    }
}

impl Clone for CallTraceNode {
    /// A copy of the whole tree.
    fn clone(&self) -> (copy: Self)
        ensures
            copy@ == self@,
        decreases self,
    {
        let mut calls: Vec<CallTraceNode> = Vec::new();
        let mut i: usize = 0;
        while i < self.calls.len()
            invariant
                i <= self.calls@.len(),
                nodes_view(calls@) == nodes_view(self.calls@.subrange(0, i as int)),
            decreases self.calls@.len() - i,
        {
            let child = self.calls[i].clone();
            proof {
                lemma_nodes_view_push(calls@, child);
                lemma_nodes_view_push(self.calls@.subrange(0, i as int), self.calls@[i as int]);
                assert(self.calls@.subrange(0, i as int).push(self.calls@[i as int])
                    =~= self.calls@.subrange(0, i + 1));
            }
            calls.push(child);
            i = i + 1;
        }
        assert(self.calls@.subrange(0, i as int) =~= self.calls@);
        let input = self.input.clone();
        let output = self.output.clone();
        let revert_reason = match &self.revert_reason {
            Some(reason) => Some(reason.clone()),
            None => None,
        };
        CallTraceNode {
            gas: self.gas,
            gas_used: self.gas_used,
            value: self.value,
            input,
            output,
            revert_reason,
            calls,
        }
    }
}

/// The models of a block's traces as a request with the given `only_top_call` gets them:
/// one entry for each trace, in the order given.
pub open spec fn shaped_all(traces: Seq<CallTraceView>, only_top_call: bool) -> Seq<CallTraceView> {
    Seq::new(traces.len(), |i: int| shaped(traces[i], only_top_call))
}

/// The models of the traces that a list of entries holds.
pub open spec fn results_view(entries: Seq<ResultDebugCall>) -> Seq<CallTraceView> {
    Seq::new(entries.len(), |i: int| node_view(entries[i].result))
}

/// Wraps each trace of a block into an entry, shaped by `only_top_call`, keeping the order.
pub fn shape_all(traces: Vec<CallTraceNode>, only_top_call: bool) -> (entries: Vec<ResultDebugCall>)
    ensures
        results_view(entries@) == shaped_all(nodes_view(traces@), only_top_call),
{
    let ghost all = traces@;
    let mut entries: Vec<ResultDebugCall> = Vec::new();
    proof {
        lemma_nodes_view(all);
    }
    for trace in it: traces
        invariant
            it.seq() == all,
            entries@.len() == it.index(),
            forall|i: int|
                0 <= i < entries@.len() ==> node_view(#[trigger] entries@[i].result) == shaped(
                    node_view(all[i]),
                    only_top_call,
                ),
    {
        entries.push(ResultDebugCall { result: trace.shape(only_top_call) });
    }
    assert(results_view(entries@) =~= shaped_all(nodes_view(all), only_top_call));
    entries
}

} // verus!
