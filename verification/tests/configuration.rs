use titan_core::config::{lookup_setting, Config, BALANCER_V3_VAULT};

fn env(pairs: &[(&str, &str)]) -> Vec<(String, String)> {
    pairs.iter().map(|(k, v)| (k.to_string(), v.to_string())).collect()
}

#[test]
fn test_config_creation() {
    let config = Config::from_env(&env(&[]));
    assert!(config.chains.len() >= 5);
    assert_eq!(BALANCER_V3_VAULT, "0xbA1333333333a1BA1108E8412f11850A5C319bA9");
}

#[test]
fn test_chain_support() {
    let config = Config::from_env(&env(&[]));
    assert!(config.is_chain_supported(1)); // Ethereum
    assert!(config.is_chain_supported(137)); // Polygon
    assert!(!config.is_chain_supported(999999)); // Invalid chain
}

#[test]
fn test_config_default() {
    let config = Config::default();
    assert!(config.chains.is_empty() || config.chains.len() >= 5);
}

#[test]
fn the_default_configuration_is_the_least_one() {
    let config = Config::default();
    assert!(config.chains.is_empty());
    assert!(config.dex_routers.is_empty());
    assert!(config.intent_based_bridges.is_empty());
    assert_eq!(config.lifi_supported_chains, vec![1, 137, 42161]);
    assert!(config.get_chain(1).is_none());
    assert!(!config.is_chain_supported(1));
}

#[test]
fn chains_take_their_endpoints_from_the_settings() {
    let config = Config::from_env(&env(&[
        ("RPC_POLYGON", "http://polygon.example"),
        ("WSS_POLYGON", "wss://polygon.example"),
        ("RPC_BASE", "http://base.example"),
        ("RPC_POLYGON", "http://second.example"),
        ("OTHER", "x"),
    ]));
    assert_eq!(config.chains.len(), 5);
    let polygon = config.get_chain(137).unwrap();
    assert_eq!(polygon.name, "polygon");
    assert_eq!(polygon.rpc, "http://polygon.example");
    assert_eq!(polygon.wss, Some("wss://polygon.example".to_string()));
    assert_eq!(polygon.aave_pool, "0x794a61358D6845594F94dc1DB02A252b5b4814aD");
    assert_eq!(polygon.uniswap_router, "0xE592427A0AEce92De3Edee1F18E0157C05861564");
    assert_eq!(polygon.curve_router, "0x445FE580eF8d70FF569aB36e80c647af338db351");
    assert_eq!(polygon.native, "MATIC");
    let base = config.get_chain(8453).unwrap();
    assert_eq!(base.name, "base");
    assert_eq!(base.rpc, "http://base.example");
    assert_eq!(base.wss, None);
    assert_eq!(base.uniswap_router, "0x2626664c2603336E57B271c5C0b26F421741e481");
    let ethereum = config.get_chain(1).unwrap();
    assert_eq!(ethereum.name, "ethereum");
    assert_eq!(ethereum.rpc, "");
    assert_eq!(ethereum.wss, None);
    assert_eq!(ethereum.curve_router, "0x99a58482BD75cbab83b27EC03CA68fF489b5788f");
    assert_eq!(ethereum.native, "ETH");
    assert_eq!(config.get_chain(42161).unwrap().name, "arbitrum");
    assert_eq!(config.get_chain(10).unwrap().name, "optimism");
    assert!(config.get_chain(56).is_none());
    assert!(config.is_chain_supported(8453));
    assert!(!config.is_chain_supported(56));
}

#[test]
fn fixed_tables_of_the_configuration() {
    let config = Config::from_env(&env(&[]));
    assert_eq!(
        config.lifi_supported_chains,
        vec![1, 137, 42161, 10, 8453, 56, 43114, 250, 59144, 534352, 5000, 324, 81457, 42220, 204]
    );
    assert_eq!(config.dex_routers.len(), 2);
    let eth = &config.dex_routers[&1];
    assert_eq!(eth.routers.len(), 2);
    assert_eq!(
        eth.get("UNIV2"),
        Some("0x7a250d5630B4cF539739dF2C5dAcb4c659F2488D".to_string())
    );
    assert_eq!(
        eth.get("SUSHI"),
        Some("0xd9e1cE17f2641f24aE83637ab66a2cca9C378B9F".to_string())
    );
    let poly = &config.dex_routers[&137];
    assert_eq!(
        poly.get("QUICKSWAP"),
        Some("0xa5E0829CaCEd8fFDD4De3c43696c57F7D7A678ff".to_string())
    );
    assert_eq!(
        poly.get("SUSHI"),
        Some("0x1b02dA8Cb0d097eB8D57A175b88c7D8b47997506".to_string())
    );
    assert!(poly.get("UNIV2").is_none());
    let bridges = Config::load_bridges();
    assert_eq!(bridges.len(), 3);
    let across = bridges.get("across").unwrap();
    assert_eq!(across.name, "Across Protocol");
    assert_eq!(across.typical_time_seconds, 30);
    assert_eq!(across.max_time_seconds, 180);
    assert_eq!(across.fee_range_bps, vec![5, 30]);
    assert_eq!(across.description, "Fastest intent-based bridge using solver network");
    let stargate = bridges.get("stargate").unwrap();
    assert_eq!(stargate.name, "Stargate Finance");
    assert_eq!(stargate.typical_time_seconds, 60);
    assert_eq!(stargate.max_time_seconds, 300);
    assert_eq!(stargate.fee_range_bps, vec![6, 50]);
    let hop = bridges.get("hop").unwrap();
    assert_eq!(hop.name, "Hop Protocol");
    assert_eq!(hop.typical_time_seconds, 120);
    assert_eq!(hop.max_time_seconds, 600);
    assert_eq!(hop.fee_range_bps, vec![10, 100]);
    assert!(bridges.get("celer").is_none());
    assert_eq!(Config::load_dex_routers().len(), 2);
    assert_eq!(Config::load_chains(&env(&[])).len(), 5);
}

#[test]
fn the_first_setting_of_a_name_counts() {
    let e = env(&[("A", "1"), ("B", "2"), ("A", "3")]);
    assert_eq!(lookup_setting(&e, "A"), Some("1".to_string()));
    assert_eq!(lookup_setting(&e, "B"), Some("2".to_string()));
    assert_eq!(lookup_setting(&e, "C"), None);
    assert_eq!(lookup_setting(&env(&[]), "A"), None);
}
