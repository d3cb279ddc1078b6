use merkseal::config::{ConfigError, MantleConfig};

#[test]
fn test_testnet_detection() {
    let config = MantleConfig::new(
        "https://rpc.sepolia.mantle.xyz".to_string(),
        5003,
        "0x1234".to_string(),
    );
    assert!(config.is_testnet());
    assert!(!config.is_mainnet());
}

#[test]
fn test_mainnet_detection() {
    let config = MantleConfig::new(
        "https://rpc.mantle.xyz".to_string(),
        5000,
        "0x1234".to_string(),
    );
    assert!(config.is_mainnet());
    assert!(!config.is_testnet());
}

#[test]
fn test_explorer_urls() {
    let config = MantleConfig::new(
        "https://rpc.sepolia.mantle.xyz".to_string(),
        5003,
        "0xABCD1234".to_string(),
    );

    assert_eq!(
        config.tx_url("0xdeadbeef"),
        "https://explorer.testnet.mantle.xyz/tx/0xdeadbeef"
    );

    assert_eq!(
        config.contract_url(),
        "https://explorer.testnet.mantle.xyz/address/0xABCD1234"
    );
}

#[test]
fn mainnet_explorer_urls() {
    let config = MantleConfig::new("https://rpc.mantle.xyz".to_string(), 5000, "0xAB".to_string());
    assert_eq!(config.explorer_url(), "https://explorer.mantle.xyz");
    assert_eq!(config.tx_url("0x01"), "https://explorer.mantle.xyz/tx/0x01");
    assert_eq!(config.contract_url(), "https://explorer.mantle.xyz/address/0xAB");
}

#[test]
fn unknown_chain_is_neither_network() {
    let config = MantleConfig::new("http://localhost".to_string(), 31337, String::new());
    assert!(!config.is_testnet());
    assert!(!config.is_mainnet());
    assert_eq!(config.explorer_url(), "https://explorer.mantle.xyz");
}

#[test]
fn from_values_applies_defaults() {
    let config = MantleConfig::from_values(None, None, Some("0xREG".to_string())).unwrap();
    assert_eq!(config.rpc_url, "https://rpc.sepolia.mantle.xyz");
    assert_eq!(config.chain_id, 5003);
    assert_eq!(config.registry_address, "0xREG");
}

#[test]
fn from_values_keeps_given_settings() {
    let config = MantleConfig::from_values(
        Some("https://rpc.mantle.xyz".to_string()),
        Some(5000),
        Some("0xREG".to_string()),
    )
    .unwrap();
    assert_eq!(config.rpc_url, "https://rpc.mantle.xyz");
    assert_eq!(config.chain_id, 5000);
    assert!(config.is_mainnet());
}

#[test]
fn from_values_requires_registry_address() {
    let result = MantleConfig::from_values(Some("https://rpc.mantle.xyz".to_string()), Some(5000), None);
    assert!(matches!(result, Err(ConfigError::MissingRegistryAddress)));
    assert_eq!(
        ConfigError::MissingRegistryAddress.message(),
        "MERKLE_BATCH_REGISTRY_ADDRESS environment variable not set"
    );
}

#[test]
fn default_config_is_testnet_without_registry() {
    let config = MantleConfig::default();
    assert_eq!(config.rpc_url, "https://rpc.sepolia.mantle.xyz");
    assert_eq!(config.chain_id, 5003);
    assert_eq!(config.registry_address, "");
    assert!(config.is_testnet());
}
