//! The ways a debug-trace request fails, and how each is reported.

use vstd::prelude::*;

verus! {

/// The request handlers, by the name each is known under in diagnostics and metrics.
#[derive(Clone, Copy, Debug, PartialEq, Eq)]
pub enum Method {
    TraceBlock,
    TraceTransaction,
    TraceCall,
}

impl Method {
    /// The handler's name.
    pub fn name(&self) -> (name: &'static str)
        ensures
            name@ == match *self {
                Method::TraceBlock => "debug_trace_block"@,
                Method::TraceTransaction => "debug_trace_transaction"@,
                Method::TraceCall => "debug_trace_call"@,
            },
    {
        match self {
            Method::TraceBlock => "debug_trace_block",
            Method::TraceTransaction => "debug_trace_transaction",
            Method::TraceCall => "debug_trace_call",
        }
    }
}

/// A failed access to storage. What went wrong inside storage is not carried along.
#[derive(Clone, Copy, Debug, PartialEq, Eq)]
pub struct StorageFailure;

/// Why a request produced no trace.
#[derive(Clone, Debug, PartialEq, Eq)]
pub enum DebugError {
    /// The block reference names no block.
    BlockNotFound,
    /// The call request does not make a well-formed transaction; the text says why.
    MalformedRequest(String),
    /// The execution slot pool has been shut down.
    AdmissionClosed,
    /// The VM could not form any result: a rejected submission with the halt reason and
    /// its associated data.
    ExecutionHalted { reason: String, data: Vec<u8> },
    /// Storage could not be read while serving the named handler.
    StorageUnavailable(Method),
}

/// The mathematical model of a [`DebugError`].
pub enum ErrorView {
    BlockNotFound,
    MalformedRequest(Seq<char>),
    AdmissionClosed,
    ExecutionHalted { reason: Seq<char>, data: Seq<u8> },
    StorageUnavailable(Method),
}

impl View for DebugError {
    type V = ErrorView;

    open spec fn view(&self) -> ErrorView {
        match *self {
            DebugError::BlockNotFound => ErrorView::BlockNotFound,
            DebugError::MalformedRequest(why) => ErrorView::MalformedRequest(why@),
            DebugError::AdmissionClosed => ErrorView::AdmissionClosed,
            DebugError::ExecutionHalted { reason, data } => ErrorView::ExecutionHalted {
                reason: reason@,
                data: data@,
            },
            DebugError::StorageUnavailable(method) => ErrorView::StorageUnavailable(method),
        }
    }
}

/// An error as the API reports it to its caller.
#[derive(Clone, Debug, PartialEq, Eq)]
pub enum Web3Error {
    /// There is no such block.
    NoBlock,
    /// The request does not make a transaction; the text says why.
    SerializationError(String),
    /// The submission was rejected, for the given reason and with the given data.
    SubmitTransactionError(String, Vec<u8>),
    /// Something failed inside the node. What failed is not told.
    InternalError,
}

/// The mathematical model of a [`Web3Error`].
pub enum Web3ErrorView {
    NoBlock,
    SerializationError(Seq<char>),
    SubmitTransactionError(Seq<char>, Seq<u8>),
    InternalError,
}

impl View for Web3Error {
    type V = Web3ErrorView;

    open spec fn view(&self) -> Web3ErrorView {
        match *self {
            Web3Error::NoBlock => Web3ErrorView::NoBlock,
            Web3Error::SerializationError(why) => Web3ErrorView::SerializationError(why@),
            Web3Error::SubmitTransactionError(reason, data) => Web3ErrorView::SubmitTransactionError(
                reason@,
                data@,
            ),
            Web3Error::InternalError => Web3ErrorView::InternalError,
        }
    }
}

impl ErrorView {
    /// Whether the failure lies with the node and not with the request.
    pub open spec fn internal(self) -> bool {
        self is AdmissionClosed || self is StorageUnavailable
    }

    /// The error as the API reports it. A failure of the node is an internal error and
    /// nothing more; a halt is a rejected submission with its reason and data.
    pub open spec fn surfaced(self) -> Web3ErrorView {
        match self {
            ErrorView::BlockNotFound => Web3ErrorView::NoBlock,
            ErrorView::MalformedRequest(why) => Web3ErrorView::SerializationError(why),
            ErrorView::AdmissionClosed => Web3ErrorView::InternalError,
            ErrorView::ExecutionHalted { reason, data } => Web3ErrorView::SubmitTransactionError(
                reason,
                data,
            ),
            ErrorView::StorageUnavailable(_) => Web3ErrorView::InternalError,
        }
    }
}

/// A step of a request, with the error of a failed one as its model.
pub open spec fn step_view<T>(step: Result<T, DebugError>) -> Result<T, ErrorView> {
    match step {
        Ok(next) => Ok(next),
        Err(error) => Err(error@),
    }
}

impl DebugError {
    /// Whether the failure lies with the node and not with the request: such an error is
    /// reported as an internal error.
    pub fn is_internal(&self) -> (internal: bool)
        ensures
            internal == self@.internal(),
    {
        match self {
            DebugError::AdmissionClosed => true,
            DebugError::StorageUnavailable(_) => true,
            _ => false,
        }
    }

    /// The error as the API reports it.
    pub fn surface(self) -> (reported: Web3Error)
        ensures
            reported@ == self@.surfaced(),
    {
        match self {
            DebugError::BlockNotFound => Web3Error::NoBlock,
            DebugError::MalformedRequest(why) => Web3Error::SerializationError(why),
            DebugError::AdmissionClosed => Web3Error::InternalError,
            DebugError::ExecutionHalted { reason, data } => Web3Error::SubmitTransactionError(
                reason,
                data,
            ),
            DebugError::StorageUnavailable(_) => Web3Error::InternalError,
        }
    }
}

} // verus!
