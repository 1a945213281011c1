use helios_client::error::ErrorKind;
use helios_client::execution_mode::ExecutionMode;
use url::Url;

fn endpoints() -> Vec<String> {
    vec![
        "https://rpc-one.example/v1".to_string(),
        "https://rpc-two.example/v1".to_string(),
    ]
}

fn proof_api() -> Url {
    Url::parse("https://proofs.example/api").unwrap()
}

#[test]
fn two_endpoints_and_proof_give_verifiable_mode() {
    let mode = ExecutionMode::from_urls(Some(endpoints()), Some(proof_api()));
    assert_eq!(mode.get_all_rpcs().len(), 2);
    assert!(mode.is_verifiable());
}

#[test]
fn verifiable_mode_hands_back_what_it_was_given() {
    let mode = ExecutionMode::from_urls(Some(endpoints()), Some(proof_api()));
    assert!(matches!(mode, ExecutionMode::Verifiable(_, _)));
    assert_eq!(mode.get_verifiable_api(), Some(&proof_api()));
    assert_eq!(mode.get_all_rpcs(), endpoints().as_slice());
    assert_eq!(mode.get_rpc().unwrap(), "https://rpc-one.example/v1");
}

#[test]
fn endpoints_without_proof_give_full_mode() {
    let mode = ExecutionMode::from_urls(Some(endpoints()), None);
    assert!(matches!(mode, ExecutionMode::Full(_)));
    assert!(!mode.is_verifiable());
    assert_eq!(mode.get_verifiable_api(), None);
    assert_eq!(mode.get_all_rpcs(), endpoints().as_slice());
}

#[test]
fn no_endpoints_give_empty_full_mode_whatever_the_proof() {
    let with_proof = ExecutionMode::from_urls(None, Some(proof_api()));
    let without = ExecutionMode::from_urls(None, None);
    for mode in [with_proof, without] {
        assert!(matches!(mode, ExecutionMode::Full(_)));
        assert!(!mode.is_verifiable());
        assert!(mode.get_all_rpcs().is_empty());
        assert_eq!(mode.get_verifiable_api(), None);
        let err = mode.get_rpc().unwrap_err();
        assert_eq!(err.kind, ErrorKind::ConfigurationError);
        assert_eq!(err.message, "no execution RPCs provided");
    }
}

#[test]
fn primary_endpoint_is_the_first_listed() {
    let full = ExecutionMode::from_urls(Some(endpoints()), None);
    assert_eq!(full.get_rpc().unwrap(), "https://rpc-one.example/v1");
    let single = ExecutionMode::from_urls(Some(vec!["http://localhost:8545".to_string()]), None);
    assert_eq!(single.get_rpc().unwrap(), "http://localhost:8545");
}

#[test]
fn empty_endpoint_list_has_no_primary_endpoint() {
    let full = ExecutionMode::from_urls(Some(vec![]), None);
    assert_eq!(full.get_rpc().unwrap_err().kind, ErrorKind::ConfigurationError);
    let verifiable = ExecutionMode::from_urls(Some(vec![]), Some(proof_api()));
    assert!(verifiable.is_verifiable());
    assert_eq!(verifiable.get_rpc().unwrap_err().kind, ErrorKind::ConfigurationError);
    assert_eq!(verifiable.get_verifiable_api(), Some(&proof_api()));
}

#[test]
fn a_cloned_mode_reads_the_same() {
    let mode = ExecutionMode::from_urls(Some(endpoints()), Some(proof_api()));
    let copy = mode.clone();
    assert_eq!(copy.is_verifiable(), mode.is_verifiable());
    assert_eq!(copy.get_all_rpcs(), mode.get_all_rpcs());
    assert_eq!(copy.get_verifiable_api(), mode.get_verifiable_api());
}
