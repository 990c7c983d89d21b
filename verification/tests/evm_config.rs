use morpheum_sdk::common::NameMap;
use morpheum_sdk::evm::config::{ChainConfig, ChainRegistry, TokenConfig};

/// The registry that `[chains.anvil]` with one USDC token describes.
fn anvil_registry() -> ChainRegistry {
    let mut tokens = NameMap::new();
    tokens.insert(
        "USDC".to_string(),
        TokenConfig {
            address: "0x5FbDB2315678afecb367f032d93F642f64180aa3".into(),
            decimals: 6,
            collateral_contract: Some("0xe7f1725E7734CE288F8367e1Bb143E90bb3F0512".into()),
            settlement_contract: None,
            morpheum_asset_index: 1,
        },
    );
    let mut chains = NameMap::new();
    chains.insert(
        "anvil".to_string(),
        ChainConfig {
            chain_id: 31337,
            rpc_url: "http://127.0.0.1:8545".into(),
            hyperlane_domain: 31337,
            explorer: None,
            tokens,
        },
    );
    ChainRegistry { chains }
}

#[test]
fn parse_and_resolve() {
    let registry = anvil_registry();
    let (chain, token) = registry.resolve("anvil", "USDC").unwrap();

    assert_eq!(chain.chain_id, 31337);
    assert_eq!(chain.hyperlane_domain, 31337);
    assert_eq!(token.decimals, 6);
    assert!(token.collateral_contract.is_some());
    assert!(token.settlement_contract.is_none());
    assert_eq!(token.morpheum_asset_index, 1);
    assert_eq!(token.address[0], 0x5F);
    assert_eq!(token.address[19], 0xa3);
}

#[test]
fn alias_resolution() {
    let registry = anvil_registry();
    assert!(registry.get_chain("local").is_some());
    assert!(registry.get_chain("ANVIL").is_some());
    assert!(registry.get_chain("mainnet").is_none());
}

#[test]
fn merge_overrides() {
    let mut base = anvil_registry();
    let mut chains = NameMap::new();
    chains.insert(
        "anvil".to_string(),
        ChainConfig {
            chain_id: 31337,
            rpc_url: "http://custom:8545".into(),
            hyperlane_domain: 31337,
            explorer: None,
            tokens: NameMap::new(),
        },
    );
    let user = ChainRegistry { chains };
    base.merge(user);
    let anvil = base.chains.get("anvil").unwrap();
    assert_eq!(anvil.rpc_url, "http://custom:8545");
    assert!(anvil.tokens.get("USDC").is_some());
}

#[test]
fn unknown_chain_errors() {
    let registry = anvil_registry();
    assert!(registry.resolve("nonexistent", "USDC").is_err());
}

#[test]
fn unknown_token_errors() {
    let registry = anvil_registry();
    assert!(registry.resolve("anvil", "WBTC").is_err());
}

#[test]
fn resolve_rejects_malformed_address() {
    let mut registry = anvil_registry();
    let mut tokens = NameMap::new();
    tokens.insert(
        "BAD".to_string(),
        TokenConfig {
            address: "0x1234".into(),
            decimals: 18,
            collateral_contract: None,
            settlement_contract: None,
            morpheum_asset_index: 0,
        },
    );
    registry.chains.insert(
        "devnet".to_string(),
        ChainConfig {
            chain_id: 1,
            rpc_url: "http://devnet".into(),
            hyperlane_domain: 1,
            explorer: None,
            tokens,
        },
    );
    assert!(registry.resolve("devnet", "BAD").is_err());
}
