use inx_eddn::send::{
    execute_send, get_revert_message, mined_outcome, revert_reason_bytes, revert_reason_is_text, pending_failure, rejected_failure, should_retry,
    ProviderFailure, SendAttempt, SendError, SubmitFailure,
};

fn revert_data(reason: &[u8]) -> Vec<u8> {
    let mut data = vec![0u8; 67];
    data.extend_from_slice(reason);
    data.extend_from_slice(&[0, 0, 0, 7]);
    data
}

#[test]
fn revert_reason_is_read_up_to_the_first_zero() {
    assert_eq!(get_revert_message(&revert_data(b"System already registered")), "System already registered");
    assert_eq!(get_revert_message(&vec![1u8; 67]), "");
    let mut no_zero = vec![0u8; 67];
    no_zero.extend_from_slice("Grüße".as_bytes());
    assert_eq!(get_revert_message(&no_zero), "Grüße");
    assert_eq!(revert_reason_bytes(&revert_data(b"ab")), b"ab".to_vec());
}

#[test]
fn a_reason_that_is_not_utf8_is_not_text() {
    assert!(revert_reason_is_text(&revert_data(b"nope")));
    assert!(!revert_reason_is_text(&revert_data(&[0xc3, 0x28])));
    assert_eq!(
        rejected_failure(SubmitFailure::Revert(revert_data(&[0xc3, 0x28])), String::new()),
        None
    );
}

#[test]
fn only_rpc_client_failures_are_retried_while_pending() {
    assert_eq!(
        pending_failure(ProviderFailure::JsonRpcClientError, "timeout".to_string()),
        SendError::RepeatableError("timeout".to_string())
    );
    for failure in [
        ProviderFailure::EnsError,
        ProviderFailure::EnsNotOwned,
        ProviderFailure::SerdeJson,
        ProviderFailure::HexError,
        ProviderFailure::HTTPError,
        ProviderFailure::CustomError,
        ProviderFailure::UnsupportedRPC,
        ProviderFailure::UnsupportedNodeClient,
        ProviderFailure::SignerUnavailable,
    ] {
        assert_eq!(pending_failure(failure, "m".to_string()), SendError::NonRepeatableError("m".to_string()));
    }
}

#[test]
fn only_middleware_failures_are_retried_when_rejected() {
    assert_eq!(
        rejected_failure(SubmitFailure::MiddlewareError, "nonce too low".to_string()),
        Some(SendError::RepeatableError("nonce too low".to_string()))
    );
    for failure in [
        SubmitFailure::DecodingError,
        SubmitFailure::AbiError,
        SubmitFailure::DetokenizationError,
        SubmitFailure::ProviderError,
        SubmitFailure::ConstructorError,
        SubmitFailure::ContractNotDeployed,
    ] {
        assert_eq!(rejected_failure(failure, "m".to_string()), Some(SendError::NonRepeatableError("m".to_string())));
    }
    assert_eq!(
        rejected_failure(SubmitFailure::Revert(revert_data(b"nope")), String::new()),
        Some(SendError::NonRepeatableError("nope".to_string()))
    );
    assert_eq!(rejected_failure(SubmitFailure::Revert(vec![1, 2, 3]), String::new()), None);
}

#[test]
fn receipts_give_the_block_hash() {
    assert_eq!(mined_outcome(Some(Some(vec![7u8; 32]))), Ok(vec![7u8; 32]));
    assert_eq!(mined_outcome(Some(None)), Err(SendError::NonRepeatableError("Receipt without hash".to_string())));
    assert_eq!(mined_outcome(None), Err(SendError::NonRepeatableError("No Receipt".to_string())));
}

#[test]
fn sends_are_retried_only_after_repeatable_failures() {
    let retried = execute_send(SendAttempt::Dropped { cause: ProviderFailure::JsonRpcClientError, message: "x".to_string() }).unwrap();
    assert!(should_retry(&retried));
    let final_failure = execute_send(SendAttempt::Rejected { failure: SubmitFailure::AbiError, message: "x".to_string() }).unwrap();
    assert!(!should_retry(&final_failure));
    let mined = execute_send(SendAttempt::Mined { receipt: Some(Some(vec![1u8; 32])) }).unwrap();
    assert!(!should_retry(&mined));
    assert_eq!(execute_send(SendAttempt::Rejected { failure: SubmitFailure::Revert(vec![0; 3]), message: String::new() }), None);
}
