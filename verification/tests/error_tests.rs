use helios_client::error::{ClientError, ErrorKind};

#[test]
fn configuration_error_text() {
    let e = ClientError::configuration();
    assert_eq!(e.kind, ErrorKind::ConfigurationError);
    assert_eq!(e.to_text(), "no execution RPCs provided");
}

#[test]
fn upstream_error_keeps_detail() {
    let e = ClientError::upstream("connection refused".to_string());
    assert_eq!(e.kind, ErrorKind::UpstreamRpcError);
    assert_eq!(e.to_text(), "connection refused");
}

#[test]
fn verification_errors_text() {
    let mismatch = ClientError::proof_mismatch();
    assert_eq!(mismatch.kind, ErrorKind::VerificationFailed);
    assert_eq!(
        mismatch.to_text(),
        "proof does not match the value returned by the execution endpoint"
    );
    let head = ClientError::head_unavailable();
    assert_eq!(head.kind, ErrorKind::VerificationFailed);
    assert_eq!(head.to_text(), "verified head unavailable");
}

#[test]
fn filter_not_found_text() {
    let e = ClientError::filter_not_found();
    assert_eq!(e.kind, ErrorKind::FilterNotFound);
    assert_eq!(e.to_text(), "filter not found");
}

#[test]
fn server_startup_errors_text() {
    let e = ClientError::server_startup("address in use".to_string());
    assert_eq!(e.kind, ErrorKind::ServerStartupError);
    assert_eq!(e.to_text(), "address in use");
    let again = ClientError::already_started();
    assert_eq!(again.kind, ErrorKind::ServerStartupError);
    assert_eq!(again.to_text(), "rpc server already started");
}

#[test]
fn new_error_holds_kind_and_message() {
    let e = ClientError::new(ErrorKind::UpstreamRpcError, "timeout".to_string());
    assert_eq!(
        e,
        ClientError { kind: ErrorKind::UpstreamRpcError, message: "timeout".to_string() }
    );
}
