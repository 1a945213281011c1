use helios_client::method::{Method, Namespace, METHOD_COUNT};

#[test]
fn table_lists_every_method_once() {
    let table = Method::all();
    assert_eq!(table.len(), 28);
    assert_eq!(table.len(), METHOD_COUNT);
    for (i, method) in table.iter().enumerate() {
        assert_eq!(Method::from_index(i), Some(*method));
        for other in table.iter().skip(i + 1) {
            assert_ne!(method, other);
        }
    }
    assert_eq!(Method::from_index(28), None);
}

#[test]
fn wire_names_are_distinct() {
    let table = Method::all();
    for (i, a) in table.iter().enumerate() {
        for b in table.iter().skip(i + 1) {
            assert_ne!(a.name(), b.name());
        }
    }
}

#[test]
fn wire_names_follow_the_table() {
    let expected = [
        "eth_getBalance",
        "eth_getTransactionCount",
        "eth_getBlockTransactionCountByHash",
        "eth_getBlockTransactionCountByNumber",
        "eth_getCode",
        "eth_getClientVersion",
        "eth_call",
        "eth_estimateGas",
        "eth_chainId",
        "eth_gasPrice",
        "eth_maxPriorityFeePerGas",
        "eth_blockNumber",
        "eth_getBlockByNumber",
        "eth_getBlockByHash",
        "eth_sendRawTransaction",
        "eth_getTransactionReceipt",
        "eth_getTransactionByHash",
        "eth_getTransactionByBlockHashAndIndex",
        "eth_getLogs",
        "eth_getFilterChanges",
        "eth_uninstallFilter",
        "eth_newFilter",
        "eth_newBlockFilter",
        "eth_newPendingTransactionFilter",
        "eth_getStorageAt",
        "eth_coinbase",
        "eth_syncing",
        "net_version",
    ];
    let names: Vec<&str> = Method::all().iter().map(|method| method.name()).collect();
    assert_eq!(names, expected);
}

#[test]
fn a_name_starts_with_the_prefix_of_its_namespace() {
    for method in Method::all() {
        let prefix = format!("{}_", method.namespace().prefix());
        assert!(method.name().starts_with(&prefix));
    }
    assert_eq!(Namespace::Eth.prefix(), "eth");
    assert_eq!(Namespace::Net.prefix(), "net");
}

#[test]
fn only_version_is_in_the_net_namespace() {
    for method in Method::all() {
        let expected = if method == Method::Version { Namespace::Net } else { Namespace::Eth };
        assert_eq!(method.namespace(), expected);
    }
}
