use relayer_primitives::configs::{ChainsConfig, ConfigurationError, RelayerAccounts};

fn keys(names: &[&str]) -> Vec<String> {
    names.iter().map(|k| k.to_string()).collect()
}

#[test]
fn pool_reports_its_size() {
    let pool = RelayerAccounts::new(keys(&["k1", "k2", "k3"]));
    assert_eq!(pool.len(), 3);
    assert!(!pool.is_empty());
    let empty = RelayerAccounts::new(Vec::new());
    assert_eq!(empty.len(), 0);
    assert!(empty.is_empty());
}

#[test]
fn front_account_is_handed_out_first() {
    let mut pool = RelayerAccounts::new(keys(&["k1", "k2", "k3"]));
    assert_eq!(pool.get_current_key(), "k1");
    assert_eq!(pool, RelayerAccounts::new(keys(&["k2", "k3", "k1"])));
}

#[test]
fn full_cycle_returns_each_account_once_and_restores_order() {
    let given = keys(&["k1", "k2", "k3", "k4"]);
    let mut pool = RelayerAccounts::new(given.clone());
    let mut served = Vec::new();
    for _ in 0..given.len() {
        served.push(pool.get_current_key());
    }
    assert_eq!(served, given);
    assert_eq!(pool, RelayerAccounts::new(given));
}

#[test]
fn account_is_reused_only_after_all_others() {
    let mut pool = RelayerAccounts::new(keys(&["a", "b", "c"]));
    let served: Vec<String> = (0..7).map(|_| pool.get_current_key()).collect();
    assert_eq!(served, keys(&["a", "b", "c", "a", "b", "c", "a"]));
    for i in 0..served.len() {
        for j in (i + 1)..served.len() {
            if j - i < 3 {
                assert_ne!(served[i], served[j]);
            }
        }
    }
}

#[test]
fn single_account_pool_keeps_serving_it() {
    let mut pool = RelayerAccounts::new(keys(&["only"]));
    assert_eq!(pool.get_current_key(), "only");
    assert_eq!(pool.get_current_key(), "only");
    assert_eq!(pool.len(), 1);
}

#[test]
fn duplicate_keys_keep_their_places() {
    let mut pool = RelayerAccounts::new(keys(&["x", "y", "x"]));
    assert_eq!(pool.get_current_key(), "x");
    assert_eq!(pool, RelayerAccounts::new(keys(&["y", "x", "x"])));
    assert_eq!(pool.len(), 3);
}

#[test]
fn chains_config_new_keeps_every_field() {
    let config = ChainsConfig::new(
        Some("Ethereum Dev Network".to_string()),
        "http://localhost:8545".to_string(),
        31337,
        keys(&["k1", "k2"]),
        "0x5FbDB2315678afecb367f032d93F642f64180aa3".to_string(),
    );
    assert_eq!(config.name.as_deref(), Some("Ethereum Dev Network"));
    assert_eq!(config.rpc_url, "http://localhost:8545");
    assert_eq!(config.chain_id, 31337);
    assert_eq!(config.accounts_private_keys, keys(&["k1", "k2"]));
    assert_eq!(config.trusted_forwarder, "0x5FbDB2315678afecb367f032d93F642f64180aa3");
}

const K1: &str = "0xac0974bec39a17e36ba4a6b4d238ff944bacb478cbed5efcae784d7bf4f2ff80";
const K2: &str = "59c6995e998f97a5a0044966f0945389dc9e86dae88c7a8412f4603b6b78690d";
const FORWARDER: &str = "0x5FbDB2315678afecb367f032d93F642f64180aa3";

fn config(account_keys: &[&str], rpc_url: &str, forwarder: &str) -> ChainsConfig {
    ChainsConfig::new(None, rpc_url.to_string(), 1, keys(account_keys), forwarder.to_string())
}

#[test]
fn validate_returns_the_forwarder_address() {
    let forwarder = config(&[K1, K2], "http://localhost:8545", FORWARDER).validate().unwrap();
    assert_eq!(
        forwarder.bytes,
        [
            0x5f, 0xbd, 0xb2, 0x31, 0x56, 0x78, 0xaf, 0xec, 0xb3, 0x67, 0xf0, 0x32, 0xd9, 0x3f,
            0x64, 0x2f, 0x64, 0x18, 0x0a, 0xa3
        ]
    );
}

#[test]
fn validate_rejects_empty_account_list() {
    assert_eq!(
        config(&[], "http://localhost:8545", FORWARDER).validate(),
        Err(ConfigurationError::EmptyAccounts)
    );
}

#[test]
fn validate_names_the_first_key_that_is_no_key() {
    assert_eq!(
        config(&[K1, "k2", K2, "k4"], "http://localhost:8545", FORWARDER).validate(),
        Err(ConfigurationError::InvalidAccountKey { index: 1 })
    );
    assert_eq!(
        config(&["", K1], "http://localhost:8545", FORWARDER).validate(),
        Err(ConfigurationError::InvalidAccountKey { index: 0 })
    );
}

#[test]
fn validate_rejects_a_key_that_is_no_curve_scalar() {
    // well-formed hexadecimal text, but zero is no secret key
    let zero = "0x0000000000000000000000000000000000000000000000000000000000000000";
    assert_eq!(
        config(&[K1, K2, zero], "http://localhost:8545", FORWARDER).validate(),
        Err(ConfigurationError::InvalidAccountKey { index: 2 })
    );
}

#[test]
fn validate_rejects_an_endpoint_that_is_no_url() {
    assert_eq!(
        config(&[K1], "not a url", FORWARDER).validate(),
        Err(ConfigurationError::InvalidRpcUrl)
    );
    assert_eq!(config(&[K1], "", FORWARDER).validate(), Err(ConfigurationError::InvalidRpcUrl));
}

#[test]
fn validate_rejects_unparsable_forwarder() {
    assert_eq!(
        config(&[K1], "http://localhost:8545", "forwarder").validate(),
        Err(ConfigurationError::InvalidForwarderAddress)
    );
}

#[test]
fn validate_reports_faults_in_order() {
    assert_eq!(config(&[], "", "").validate(), Err(ConfigurationError::EmptyAccounts));
    assert_eq!(
        config(&["k"], "", "").validate(),
        Err(ConfigurationError::InvalidAccountKey { index: 0 })
    );
    assert_eq!(config(&[K1], "", "").validate(), Err(ConfigurationError::InvalidRpcUrl));
    assert_eq!(
        config(&[K1], "https://rpc.example.org/v1", "").validate(),
        Err(ConfigurationError::InvalidForwarderAddress)
    );
}
