use helios_client::error::ErrorKind;
use helios_client::execution_mode::ExecutionMode;
use helios_client::node::{after_proof, after_raw, check_against_proof, AfterRaw, BlockId, BlockTag, ProofReport};
use url::Url;

fn verifiable() -> ExecutionMode {
    ExecutionMode::from_urls(
        Some(vec!["https://exec.example/".to_string()]),
        Some(Url::parse("https://proofs.example/").unwrap()),
    )
}

fn full() -> ExecutionMode {
    ExecutionMode::from_urls(Some(vec!["https://exec.example/".to_string()]), None)
}

#[test]
fn fixed_tags_resolve_to_themselves() {
    let head = Some(BlockId::Number(100));
    assert_eq!(BlockTag::Number(7).resolve(head), Ok(BlockId::Number(7)));
    assert_eq!(BlockTag::Number(7).resolve(None), Ok(BlockId::Number(7)));
    assert_eq!(BlockTag::Hash([3u8; 32]).resolve(None), Ok(BlockId::Hash([3u8; 32])));
    assert!(!BlockTag::Number(0).is_relative());
    assert!(!BlockTag::Hash([0u8; 32]).is_relative());
}

#[test]
fn relative_tags_resolve_to_the_head() {
    let head = BlockId::Hash([9u8; 32]);
    for tag in [BlockTag::Latest, BlockTag::Finalized, BlockTag::Safe, BlockTag::Pending] {
        assert!(tag.is_relative());
        assert_eq!(tag.resolve(Some(head)), Ok(head));
        assert_eq!(tag.resolve(Some(BlockId::Number(42))), Ok(BlockId::Number(42)));
    }
}

#[test]
fn relative_tag_without_head_fails() {
    for tag in [BlockTag::Latest, BlockTag::Finalized, BlockTag::Safe, BlockTag::Pending] {
        let err = tag.resolve(None).unwrap_err();
        assert_eq!(err.kind, ErrorKind::VerificationFailed);
        assert_eq!(err.message, "verified head unavailable");
    }
}

#[test]
fn confirmed_value_is_handed_back() {
    let report = ProofReport::Answer { value: vec![1, 2, 3], valid: true };
    assert_eq!(check_against_proof(vec![1, 2, 3], &report), Ok(vec![1, 2, 3]));
    let empty = ProofReport::Answer { value: vec![], valid: true };
    assert_eq!(check_against_proof(vec![], &empty), Ok(vec![]));
}

#[test]
fn inconsistent_value_fails_verification() {
    let report = ProofReport::Answer { value: vec![1, 2, 4], valid: true };
    let err = check_against_proof(vec![1, 2, 3], &report).unwrap_err();
    assert_eq!(err.kind, ErrorKind::VerificationFailed);
    assert_eq!(err.message, "proof does not match the value returned by the execution endpoint");
    let shorter = ProofReport::Answer { value: vec![1, 2], valid: true };
    assert_eq!(
        check_against_proof(vec![1, 2, 3], &shorter).unwrap_err().kind,
        ErrorKind::VerificationFailed
    );
    let longer = ProofReport::Answer { value: vec![1, 2, 3, 0], valid: true };
    assert_eq!(
        check_against_proof(vec![1, 2, 3], &longer).unwrap_err().kind,
        ErrorKind::VerificationFailed
    );
}

#[test]
fn invalid_proof_fails_even_for_the_same_value() {
    let report = ProofReport::Answer { value: vec![5, 5], valid: false };
    let err = check_against_proof(vec![5, 5], &report).unwrap_err();
    assert_eq!(err.kind, ErrorKind::VerificationFailed);
}

#[test]
fn missing_head_fails_verification() {
    let err = check_against_proof(vec![5, 5], &ProofReport::HeadUnavailable).unwrap_err();
    assert_eq!(err.kind, ErrorKind::VerificationFailed);
    assert_eq!(err.message, "verified head unavailable");
}

#[test]
fn full_mode_replies_with_the_raw_value() {
    let mode = full();
    match after_raw(&mode, Ok(vec![0xde, 0xad])) {
        AfterRaw::Reply(value) => assert_eq!(value, vec![0xde, 0xad]),
        other => panic!("unexpected step {:?}", other),
    }
}

#[test]
fn verifiable_mode_never_replies_before_the_check() {
    let mode = verifiable();
    match after_raw(&mode, Ok(vec![0xde, 0xad])) {
        AfterRaw::Verify(raw, api) => {
            assert_eq!(raw, vec![0xde, 0xad]);
            assert_eq!(api.as_str(), "https://proofs.example/");
        }
        other => panic!("unexpected step {:?}", other),
    }
}

#[test]
fn failed_fetch_fails_the_call_in_both_modes() {
    for mode in [full(), verifiable()] {
        match after_raw(&mode, Err("connection reset".to_string())) {
            AfterRaw::Fail(err) => {
                assert_eq!(err.kind, ErrorKind::UpstreamRpcError);
                assert_eq!(err.message, "connection reset");
            }
            other => panic!("unexpected step {:?}", other),
        }
    }
}

#[test]
fn after_proof_checks_or_propagates() {
    let ok = after_proof(vec![7], Ok(ProofReport::Answer { value: vec![7], valid: true }));
    assert_eq!(ok, Ok(vec![7]));
    let bad = after_proof(vec![7], Ok(ProofReport::Answer { value: vec![8], valid: true }));
    assert_eq!(bad.unwrap_err().kind, ErrorKind::VerificationFailed);
    let down = after_proof(vec![7], Err("proof endpoint timed out".to_string())).unwrap_err();
    assert_eq!(down.kind, ErrorKind::UpstreamRpcError);
    assert_eq!(down.message, "proof endpoint timed out");
}
