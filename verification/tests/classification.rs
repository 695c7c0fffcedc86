use debug_trace::error::{DebugError, Method, Web3Error};
use debug_trace::outcome::{classify, classify_with, stringify_revert, ExecutionOutcome};

#[test]
fn success_gives_its_output_and_no_revert_reason() {
    let classified = classify(ExecutionOutcome::Success { output: vec![1, 2, 3] });
    assert_eq!(classified, Ok((vec![1, 2, 3], None)));
}

#[test]
fn success_with_empty_output() {
    assert_eq!(classify(ExecutionOutcome::Success { output: vec![] }), Ok((vec![], None)));
}

#[test]
fn revert_gives_an_empty_output_and_the_reason_as_text() {
    let classified = classify(ExecutionOutcome::Revert { output: b"insufficient funds".to_vec() });
    assert_eq!(classified, Ok((vec![], Some("insufficient funds".to_string()))));
}

#[test]
fn revert_with_empty_data_has_an_empty_reason() {
    assert_eq!(classify(ExecutionOutcome::Revert { output: vec![] }), Ok((vec![], Some(String::new()))));
}

#[test]
fn revert_text_is_decoded_as_utf8() {
    let classified = classify(ExecutionOutcome::Revert { output: vec![0x67, 0x72, 0xc3, 0xbc, 0xc3, 0x9f] });
    assert_eq!(classified, Ok((vec![], Some("gr\u{fc}\u{df}".to_string()))));
}

#[test]
fn revert_text_replaces_ill_formed_bytes() {
    let classified = classify(ExecutionOutcome::Revert { output: vec![0x6f, 0x6b, 0xff, 0x21] });
    assert_eq!(classified, Ok((vec![], Some("ok\u{fffd}!".to_string()))));
}

#[test]
fn halt_is_a_rejected_submission_with_the_reason_and_no_data() {
    let classified = classify(ExecutionOutcome::Halt { reason: "out of gas".to_string() });
    assert_eq!(
        classified,
        Err(DebugError::ExecutionHalted { reason: "out of gas".to_string(), data: vec![] })
    );
}

#[test]
fn classify_with_takes_the_given_text_for_a_revert() {
    let classified = classify_with(ExecutionOutcome::Revert { output: vec![9, 9] }, "given".to_string());
    assert_eq!(classified, Ok((vec![], Some("given".to_string()))));
}

#[test]
fn classify_with_ignores_the_text_for_a_success_and_a_halt() {
    assert_eq!(
        classify_with(ExecutionOutcome::Success { output: vec![4] }, "unused".to_string()),
        Ok((vec![4], None))
    );
    assert_eq!(
        classify_with(ExecutionOutcome::Halt { reason: "stack".to_string() }, "unused".to_string()),
        Err(DebugError::ExecutionHalted { reason: "stack".to_string(), data: vec![] })
    );
}

#[test]
fn stringify_revert_reads_the_revert_data() {
    assert_eq!(stringify_revert(&ExecutionOutcome::Revert { output: b"no".to_vec() }), "no");
}

#[test]
fn stringify_revert_of_other_outcomes_is_empty() {
    assert_eq!(stringify_revert(&ExecutionOutcome::Success { output: b"no".to_vec() }), "");
    assert_eq!(stringify_revert(&ExecutionOutcome::Halt { reason: "no".to_string() }), "");
}

#[test]
fn internal_errors_are_those_of_the_node() {
    assert!(DebugError::AdmissionClosed.is_internal());
    assert!(DebugError::StorageUnavailable(Method::TraceBlock).is_internal());
    assert!(!DebugError::BlockNotFound.is_internal());
    assert!(!DebugError::MalformedRequest("nonce".to_string()).is_internal());
    assert!(!DebugError::ExecutionHalted { reason: "x".to_string(), data: vec![] }.is_internal());
}

#[test]
fn errors_surface_as_the_api_reports_them() {
    assert_eq!(DebugError::BlockNotFound.surface(), Web3Error::NoBlock);
    assert_eq!(
        DebugError::MalformedRequest("nonce".to_string()).surface(),
        Web3Error::SerializationError("nonce".to_string())
    );
    assert_eq!(
        DebugError::ExecutionHalted { reason: "out of gas".to_string(), data: vec![] }.surface(),
        Web3Error::SubmitTransactionError("out of gas".to_string(), vec![])
    );
    assert_eq!(DebugError::AdmissionClosed.surface(), Web3Error::InternalError);
    assert_eq!(DebugError::StorageUnavailable(Method::TraceCall).surface(), Web3Error::InternalError);
    assert_eq!(DebugError::StorageUnavailable(Method::TraceBlock).surface(), Web3Error::InternalError);
}

#[test]
fn methods_have_their_names() {
    assert_eq!(Method::TraceBlock.name(), "debug_trace_block");
    assert_eq!(Method::TraceTransaction.name(), "debug_trace_transaction");
    assert_eq!(Method::TraceCall.name(), "debug_trace_call");
}
