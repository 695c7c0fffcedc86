//! The VM's three-way outcome and its classification into a response or a fatal error.

use vstd::prelude::*;
use vstd::utf8::{decode_utf8, valid_utf8};

use crate::error::{DebugError, ErrorView};
use crate::trace::text_view;

verus! {

/// How one VM execution ended.
#[derive(Clone, Debug, PartialEq, Eq)]
pub enum ExecutionOutcome {
    /// The call ran to its end and returned `output`.
    Success { output: Vec<u8> },
    /// The called code aborted; `output` is the data it reverted with.
    Revert { output: Vec<u8> },
    /// The VM could not form any execution result.
    Halt { reason: String },
}

/// The mathematical model of an [`ExecutionOutcome`].
pub enum OutcomeView {
    Success { output: Seq<u8> },
    Revert { output: Seq<u8> },
    Halt { reason: Seq<char> },
}

impl View for ExecutionOutcome {
    type V = OutcomeView;

    open spec fn view(&self) -> OutcomeView {
        match *self {
            ExecutionOutcome::Success { output } => OutcomeView::Success { output: output@ },
            ExecutionOutcome::Revert { output } => OutcomeView::Revert { output: output@ },
            ExecutionOutcome::Halt { reason } => OutcomeView::Halt { reason: reason@ },
        }
    }
}

/// What the VM reports of one execution.
#[derive(Clone, Debug, PartialEq, Eq)]
pub struct ExecutionReport {
    pub outcome: ExecutionOutcome,
    pub gas_used: u32,
}

/// The mathematical model of an [`ExecutionReport`].
pub struct ReportView {
    pub outcome: OutcomeView,
    pub gas_used: u32,
}

impl View for ExecutionReport {
    type V = ReportView;

    open spec fn view(&self) -> ReportView {
        ReportView { outcome: self.outcome@, gas_used: self.gas_used }
    }
}

/// The text that `String::from_utf8_lossy` makes of a byte string.
pub uninterp spec fn utf8_lossy(bytes: Seq<u8>) -> Seq<char>;

/// `String::from_utf8_lossy`, as an owned `String`: the text of the bytes, which for
/// well-formed UTF-8 is the text they encode.
#[verifier::external_body]
fn string_from_utf8_lossy(bytes: &Vec<u8>) -> (text: String)
    ensures
        text@ == utf8_lossy(bytes@),
        valid_utf8(bytes@) ==> text@ == decode_utf8(bytes@),
{
    String::from_utf8_lossy(bytes).into_owned()
}

/// The output and the revert reason that a response carries.
pub type Classified = (Vec<u8>, Option<String>);

/// The model of a classification: the response's output and revert reason, or the error.
pub type ClassifiedView = Result<(Seq<u8>, Option<Seq<char>>), ErrorView>;

/// The model of what `classify` and `classify_with` return.
pub open spec fn classified_view(classified: Result<Classified, DebugError>) -> ClassifiedView {
    match classified {
        Ok((output, revert_reason)) => Ok((output@, text_view(revert_reason))),
        Err(error) => Err(error@),
    }
}

/// The classification of an outcome, given the text that stands for revert data.
///
/// A success gives its output and no revert reason. A revert gives an empty output, its
/// data being dropped, and the text as its reason. A halt gives no response: it is a
/// rejected submission with the halt reason and no associated data.
pub open spec fn classification_with(outcome: OutcomeView, revert_text: Seq<char>) -> ClassifiedView {
    match outcome {
        OutcomeView::Success { output } => Ok((output, None)),
        OutcomeView::Revert { .. } => Ok((Seq::empty(), Some(revert_text))),
        OutcomeView::Halt { reason } => Err(
            ErrorView::ExecutionHalted { reason, data: Seq::empty() },
        ),
    }
}

/// The text that stands for the data of a revert: the data read as UTF-8, ill-formed
/// parts replaced. The other outcomes have none, which is the empty text here.
pub open spec fn revert_text(outcome: OutcomeView) -> Seq<char> {
    match outcome {
        OutcomeView::Revert { output } => utf8_lossy(output),
        _ => Seq::empty(),
    }
}

/// The classification of an outcome.
pub open spec fn classification(outcome: OutcomeView) -> ClassifiedView {
    classification_with(outcome, revert_text(outcome))
}

/// Classifies an outcome, with `revert_text` as the text of the revert data.
pub fn classify_with(
    outcome: ExecutionOutcome,
    revert_text: String,
) -> (classified: Result<Classified, DebugError>)
    ensures
        classified_view(classified) == classification_with(outcome@, revert_text@),
{
    match outcome {
        ExecutionOutcome::Success { output } => Ok((output, None)),
        ExecutionOutcome::Revert { output: _ } => Ok((Vec::new(), Some(revert_text))),
        ExecutionOutcome::Halt { reason } => Err(
            DebugError::ExecutionHalted { reason, data: Vec::new() },
        ),
    }
}

/// The text that stands for the data of a revert; empty for the other outcomes.
pub fn stringify_revert(outcome: &ExecutionOutcome) -> (text: String)
    ensures
        text@ == revert_text(outcome@),
        outcome matches ExecutionOutcome::Revert { output } ==> valid_utf8(output@) ==> text@
            == decode_utf8(output@),
{
    match outcome {
        ExecutionOutcome::Revert { output } => string_from_utf8_lossy(output),
        _ => String::new(),
    }
}

/// Classifies an outcome: a success or a revert becomes the output and revert reason of
/// a response, a halt becomes the error that ends the request.
pub fn classify(outcome: ExecutionOutcome) -> (classified: Result<Classified, DebugError>)
    ensures
        classified_view(classified) == classification(outcome@),
{
    let text = stringify_revert(&outcome);
    classify_with(outcome, text)
}

} // verus!
