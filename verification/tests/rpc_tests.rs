use std::sync::Arc;

use helios_client::error::{ClientError, ErrorKind};
use helios_client::rpc::{convert_err, merge_method_tables, Rpc, WIRE_ERROR_CODE};
use jsonrpsee::{Methods, RpcModule};

fn table(names: &[&'static str]) -> Methods {
    let mut module = RpcModule::new(());
    for name in names {
        module.register_method(name, |_, _, _| 1u64).unwrap();
    }
    module.into()
}

#[test]
fn value_passes_through_unchanged() {
    let out = convert_err::<u64>(Ok(42));
    assert_eq!(out.unwrap(), 42);
    let text = convert_err::<String>(Ok("0x1".to_string()));
    assert_eq!(text.unwrap(), "0x1");
}

#[test]
fn failure_becomes_error_object_with_fixed_code() {
    let out = convert_err::<u64>(Err(ClientError::upstream("node unreachable".to_string())));
    let object = out.unwrap_err();
    assert_eq!(object.code(), 1);
    assert_eq!(object.code(), WIRE_ERROR_CODE);
    assert_eq!(object.message(), "node unreachable");
    assert!(object.data().is_none());
}

#[test]
fn every_kind_of_failure_is_converted_alike() {
    let failures = vec![
        ClientError::configuration(),
        ClientError::upstream("x".to_string()),
        ClientError::proof_mismatch(),
        ClientError::head_unavailable(),
        ClientError::filter_not_found(),
        ClientError::server_startup("y".to_string()),
    ];
    for failure in failures {
        let text = failure.to_text();
        let object = convert_err::<()>(Err(failure)).unwrap_err();
        assert_eq!(object.code(), 1);
        assert_eq!(object.message(), text);
        assert!(object.data().is_none());
    }
}

#[test]
fn disjoint_tables_merge_into_one() {
    let eth = table(&["eth_getBalance", "eth_chainId"]);
    let net = table(&["net_version"]);
    let merged = merge_method_tables(eth, net).unwrap();
    let mut names: Vec<&str> = merged.method_names().collect();
    names.sort();
    assert_eq!(names, vec!["eth_chainId", "eth_getBalance", "net_version"]);
}

#[test]
fn empty_tables_merge_into_an_empty_table() {
    let merged = merge_method_tables(table(&[]), table(&[])).unwrap();
    assert_eq!(merged.method_names().count(), 0);
}

#[test]
fn colliding_names_fail_the_startup() {
    let eth = table(&["eth_chainId", "version"]);
    let net = table(&["version"]);
    let err = merge_method_tables(eth, net).unwrap_err();
    assert_eq!(err.kind, ErrorKind::ServerStartupError);
    assert!(!err.message.is_empty());
}

#[test]
fn new_server_is_not_running() {
    let rpc: Rpc<&str, u8, (u8, u16)> = Rpc::new(Arc::new("node"), (127, 0));
    assert!(!rpc.is_running());
    assert_eq!(rpc.handle(), None);
    assert_eq!(*rpc.address(), (127, 0));
    assert_eq!(**rpc.node(), "node");
    assert_eq!(rpc.begin_start(), Ok(()));
}

#[test]
fn successful_start_keeps_handle_and_returns_bound_address() {
    let mut rpc: Rpc<&str, u8, (u8, u16)> = Rpc::new(Arc::new("node"), (127, 0));
    let bound = rpc.finish_start(Ok((5, (127, 49152))));
    assert_eq!(bound, Ok((127, 49152)));
    assert!(rpc.is_running());
    assert_eq!(rpc.handle(), Some(&5));
    assert_eq!(*rpc.address(), (127, 0));
}

#[test]
fn failed_start_leaves_the_server_as_it_was() {
    let mut rpc: Rpc<&str, u8, (u8, u16)> = Rpc::new(Arc::new("node"), (127, 8545));
    let err = rpc.finish_start(Err("address already in use".to_string())).unwrap_err();
    assert_eq!(err.kind, ErrorKind::ServerStartupError);
    assert_eq!(err.message, "address already in use");
    assert!(!rpc.is_running());
    assert_eq!(rpc.begin_start(), Ok(()));
}

#[test]
fn second_start_is_refused() {
    let mut rpc: Rpc<&str, u8, (u8, u16)> = Rpc::new(Arc::new("node"), (127, 0));
    rpc.finish_start(Ok((1, (127, 40000)))).unwrap();
    let err = rpc.begin_start().unwrap_err();
    assert_eq!(err.kind, ErrorKind::ServerStartupError);
    assert_eq!(err.message, "rpc server already started");
}

#[test]
fn count_becomes_a_64_bit_quantity() {
    let out = helios_client::rpc::quantity_reply(Ok(0x1f4));
    assert_eq!(out.unwrap(), alloy::primitives::U64::from(500u64));
    let top = helios_client::rpc::quantity_reply(Ok(u64::MAX));
    assert_eq!(top.unwrap().to::<u64>(), u64::MAX);
    let zero = helios_client::rpc::quantity_reply(Ok(0));
    assert!(zero.unwrap().is_zero());
}

#[test]
fn failed_count_becomes_error_object() {
    let out = helios_client::rpc::quantity_reply(Err(ClientError::filter_not_found()));
    let object = out.unwrap_err();
    assert_eq!(object.code(), 1);
    assert_eq!(object.message(), "filter not found");
    assert!(object.data().is_none());
}
