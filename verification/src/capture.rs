//! The write-once cell that carries the nested call tree out of one VM run.

use once_cell::sync::OnceCell;
use vstd::prelude::*;

use crate::trace::{nodes_view, CallTraceNode, CallTraceView};

verus! {

/// `once_cell::sync::OnceCell`, declared so that it can stand in a field and in
/// signatures. Nothing is claimed of what a value of it holds but through `cell_contents`.
#[verifier::external_type_specification]
#[verifier::external_body]
#[verifier::reject_recursive_types(T)]
pub struct ExOnceCell<T>(OnceCell<T>);

/// What a `once_cell::sync::OnceCell` of nested calls holds: nothing, or the calls it was
/// set to, as their models.
pub uninterp spec fn cell_contents(cell: OnceCell<Vec<CallTraceNode>>) -> Option<Seq<CallTraceView>>;

/// `once_cell::sync::OnceCell::new`: the cell it makes is empty.
#[verifier::external_body]
fn cell_new() -> (cell: OnceCell<Vec<CallTraceNode>>)
    ensures
        cell_contents(cell) is None,
{
    OnceCell::new()
}

/// `once_cell::sync::OnceCell::set`: an empty cell takes the value; a full cell keeps what
/// it holds and hands the value back, here as `Some`.
#[verifier::external_body]
fn cell_set(
    cell: &mut OnceCell<Vec<CallTraceNode>>,
    value: Vec<CallTraceNode>,
) -> (rejected: Option<Vec<CallTraceNode>>)
    ensures
        cell_contents(*old(cell)) is None ==> rejected is None
            && cell_contents(*final(cell)) == Some(nodes_view(value@)),
        cell_contents(*old(cell)) is Some ==> rejected == Some(value)
            && cell_contents(*final(cell)) == cell_contents(*old(cell)),
{
    cell.set(value).err()
}

/// `once_cell::sync::OnceCell::take`: hands out what the cell held and leaves it empty.
#[verifier::external_body]
fn cell_take(cell: &mut OnceCell<Vec<CallTraceNode>>) -> (taken: Option<Vec<CallTraceNode>>)
    ensures
        cell_contents(*old(cell)) is None ==> taken is None,
        cell_contents(*old(cell)) matches Some(calls) ==> taken matches Some(value)
            && nodes_view(value@) == calls,
        cell_contents(*final(cell)) is None,
{
    cell.take()
}

/// What a cell holds after a write of `calls`: the calls, if it was empty; what it held
/// before, if it was not.
pub open spec fn after_write(
    captured: Option<Seq<CallTraceView>>,
    calls: Seq<CallTraceView>,
) -> Option<Seq<CallTraceView>> {
    match captured {
        Some(_) => captured,
        None => Some(calls),
    }
}

/// The nested calls that a cell gives when it is read: those written, or none.
pub open spec fn extraction(captured: Option<Seq<CallTraceView>>) -> Seq<CallTraceView> {
    match captured {
        Some(calls) => calls,
        None => Seq::empty(),
    }
}

/// A container for the nested calls of one VM run. The VM's tracer writes it, once; the
/// orchestrator reads it, once, when the VM call has returned and the cell is its own
/// again.
///
/// Both take the cell exclusively, the tracer by `&mut` and the orchestrator by value, so
/// the cell cannot be read while the VM still holds it, and no two writers can hold it.
#[derive(Debug)]
pub struct TraceCaptureCell {
    cell: OnceCell<Vec<CallTraceNode>>,
}

impl TraceCaptureCell {
    /// The nested calls written into the cell, if any were.
    pub closed spec fn captured(&self) -> Option<Seq<CallTraceView>> {
        cell_contents(self.cell)
    }

    /// An empty cell.
    pub fn new() -> (cell: Self)
        ensures
            cell.captured() is None,
    {
        TraceCaptureCell { cell: cell_new() }
    }

    /// Writes the nested calls of a finished call. Only a write into an empty cell is
    /// taken: any later one is handed back in `Err`, and the cell keeps what it holds.
    pub fn write(&mut self, calls: Vec<CallTraceNode>) -> (written: Result<(), Vec<CallTraceNode>>)
        ensures
            final(self).captured() == after_write(old(self).captured(), nodes_view(calls@)),
            written is Ok <==> old(self).captured() is None,
            written matches Err(rejected) ==> rejected == calls,
    {
        match cell_set(&mut self.cell, calls) {
            Some(rejected) => Err(rejected),
            None => Ok(()),
        }
    }

    /// Takes the captured calls out of the cell; a cell that was never written gives none.
    pub fn extract(self) -> (calls: Vec<CallTraceNode>)
        ensures
            nodes_view(calls@) == extraction(self.captured()),
    {
        let mut cell = self.cell;
        match cell_take(&mut cell) {
            Some(calls) => calls,
            None => Vec::new(),
        }
    }
}

} // verus!
