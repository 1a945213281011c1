use helios_client::config::{CliConfig, ConfigKey, ConfigValue, Setting};

fn digest() -> [u8; 32] {
    let mut d = [0u8; 32];
    for (i, byte) in d.iter_mut().enumerate() {
        *byte = (i as u8).wrapping_mul(17).wrapping_add(0x0f);
    }
    d
}

fn full_config() -> CliConfig {
    CliConfig {
        execution_rpcs: vec!["https://exec.example/".to_string()],
        execution_verifiable_api: Some("https://proofs.example/".to_string()),
        consensus_rpcs: vec![
            "https://beacon-a.example/".to_string(),
            "https://beacon-b.example/".to_string(),
        ],
        checkpoint: Some(digest()),
        rpc_bind_ip: Some("127.0.0.1".to_string()),
        rpc_port: Some(8545),
        data_dir: Some("/var/lib/client".to_string()),
        fallback: Some("https://sync.example/".to_string()),
        load_external_fallback: Some(true),
        strict_checkpoint_age: Some(false),
    }
}

#[test]
fn default_config_contributes_nothing() {
    let provider = CliConfig::default().as_provider("mainnet");
    assert_eq!(provider.profile(), "mainnet");
    assert!(provider.entries().is_empty());
    assert_eq!(provider.get(ConfigKey::RpcPort), None);
}

#[test]
fn every_given_setting_is_in_the_dictionary() {
    let provider = full_config().as_provider("sepolia");
    assert_eq!(provider.profile(), "sepolia");
    assert_eq!(provider.entries().len(), 10);
    assert_eq!(
        provider.get(ConfigKey::ExecutionRpcs),
        Some(&ConfigValue::TextList(vec!["https://exec.example/".to_string()]))
    );
    assert_eq!(
        provider.get(ConfigKey::ExecutionVerifiableApi),
        Some(&ConfigValue::Text("https://proofs.example/".to_string()))
    );
    assert_eq!(
        provider.get(ConfigKey::ConsensusRpcs),
        Some(&ConfigValue::TextList(vec![
            "https://beacon-a.example/".to_string(),
            "https://beacon-b.example/".to_string(),
        ]))
    );
    assert_eq!(
        provider.get(ConfigKey::RpcBindIp),
        Some(&ConfigValue::Text("127.0.0.1".to_string()))
    );
    assert_eq!(provider.get(ConfigKey::RpcPort), Some(&ConfigValue::Number(8545)));
    assert_eq!(
        provider.get(ConfigKey::DataDir),
        Some(&ConfigValue::Text("/var/lib/client".to_string()))
    );
    assert_eq!(
        provider.get(ConfigKey::Fallback),
        Some(&ConfigValue::Text("https://sync.example/".to_string()))
    );
    assert_eq!(provider.get(ConfigKey::LoadExternalFallback), Some(&ConfigValue::Flag(true)));
    assert_eq!(provider.get(ConfigKey::StrictCheckpointAge), Some(&ConfigValue::Flag(false)));
}

#[test]
fn checkpoint_is_written_as_lowercase_hex() {
    let mut config = CliConfig::default();
    config.checkpoint = Some(digest());
    let provider = config.as_provider("mainnet");
    assert_eq!(provider.entries().len(), 1);
    assert_eq!(
        provider.get(ConfigKey::Checkpoint),
        Some(&ConfigValue::Text(
            "0f2031425364758697a8b9cadbecfd0e1f30415263748596a7b8c9daebfc0d1e".to_string()
        ))
    );
}

#[test]
fn checkpoint_of_extreme_bytes() {
    let mut config = CliConfig::default();
    let mut d = [0u8; 32];
    d[1] = 0xff;
    d[2] = 0x0a;
    d[3] = 0xa0;
    config.checkpoint = Some(d);
    let text = match config.value_of(ConfigKey::Checkpoint) {
        Some(ConfigValue::Text(text)) => text,
        other => panic!("unexpected value {:?}", other),
    };
    assert_eq!(text.len(), 64);
    assert_eq!(&text[..8], "00ff0aa0");
    assert!(text[8..].chars().all(|c| c == '0'));
}

#[test]
fn empty_lists_and_absent_options_leave_their_keys_out() {
    let mut config = full_config();
    config.execution_rpcs = vec![];
    config.rpc_port = None;
    config.strict_checkpoint_age = None;
    let provider = config.as_provider("holesky");
    assert_eq!(provider.entries().len(), 7);
    assert_eq!(provider.get(ConfigKey::ExecutionRpcs), None);
    assert_eq!(provider.get(ConfigKey::RpcPort), None);
    assert_eq!(provider.get(ConfigKey::StrictCheckpointAge), None);
    assert!(provider.get(ConfigKey::ConsensusRpcs).is_some());
}

#[test]
fn no_key_occurs_twice() {
    let provider = full_config().as_provider("mainnet");
    let entries: &Vec<Setting> = provider.entries();
    for (i, a) in entries.iter().enumerate() {
        for b in entries.iter().skip(i + 1) {
            assert_ne!(a.key, b.key);
        }
    }
}

#[test]
fn value_of_matches_the_fields() {
    let config = full_config();
    assert_eq!(config.value_of(ConfigKey::RpcPort), Some(ConfigValue::Number(8545)));
    assert_eq!(CliConfig::default().value_of(ConfigKey::RpcPort), None);
    assert_eq!(CliConfig::default().value_of(ConfigKey::ConsensusRpcs), None);
}

#[test]
fn key_names_and_positions() {
    let names = [
        "execution_rpcs",
        "execution_verifiable_api",
        "consensus_rpcs",
        "checkpoint",
        "rpc_bind_ip",
        "rpc_port",
        "data_dir",
        "fallback",
        "load_external_fallback",
        "strict_checkpoint_age",
    ];
    for (i, name) in names.iter().enumerate() {
        let key = ConfigKey::from_index(i).unwrap();
        assert_eq!(key.name(), *name);
    }
    assert_eq!(ConfigKey::from_index(10), None);
    assert_eq!(ConfigKey::from_index(usize::MAX), None);
    assert_eq!(helios_client::config::KEY_COUNT, 10);
}
