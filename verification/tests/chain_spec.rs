use popsicle::chain_spec::{
    development_config, local_testnet_config, popsicle_genesis, popsicle_session_keys, try_development_config,
    try_local_testnet_config, try_popsicle_genesis, ChainType, Extensions, PropertyValue, SessionKeys, ENDOWMENT,
    PARA_ID,
};
use popsicle::keys::get_account_id_from_seed;

const SEEDS: [&str; 12] = [
    "Alice", "Bob", "Charlie", "Dave", "Eve", "Ferdie", "Alice//stash", "Bob//stash", "Charlie//stash",
    "Dave//stash", "Eve//stash", "Ferdie//stash",
];

#[test]
fn endowment_is_two_to_the_sixty() {
    assert_eq!(ENDOWMENT, 1u128 << 60);
}

#[test]
fn development_config_fields() {
    let spec = development_config();
    assert_eq!(spec.name, "Popsicle Development");
    assert_eq!(spec.id, "popsicle_dev");
    assert_eq!(spec.chain_type, ChainType::Development);
    assert!(spec.boot_nodes.is_empty());
    assert!(spec.telemetry_endpoints.is_none());
    assert!(spec.protocol_id.is_none());
    assert!(spec.fork_id.is_none());
    assert_eq!(
        spec.properties,
        Some(vec![
            ("tokenSymbol".to_string(), PropertyValue::Text("UNIT".to_string())),
            ("tokenDecimals".to_string(), PropertyValue::Number(12)),
            ("ss58Format".to_string(), PropertyValue::Number(42)),
        ])
    );
    assert_eq!(spec.extensions, Extensions { relay_chain: "rococo-local".to_string(), para_id: 2000 });
    let alice = get_account_id_from_seed("Alice");
    let bob = get_account_id_from_seed("Bob");
    assert_eq!(spec.genesis.invulnerables, vec![(alice, alice), (bob, bob)]);
    let endowed: Vec<[u8; 32]> = SEEDS.iter().map(|s| get_account_id_from_seed(s)).collect();
    assert_eq!(spec.genesis.endowed_accounts, endowed);
    assert_eq!(spec.genesis.root_key, alice);
    assert_eq!(spec.genesis.para_id, PARA_ID);
}

#[test]
fn local_testnet_config_fields() {
    let spec = local_testnet_config();
    assert_eq!(spec.name, "Popsicle Local Testnet");
    assert_eq!(spec.id, "popsicle_local_testnet");
    assert_eq!(spec.chain_type, ChainType::Local);
    assert_eq!(spec.protocol_id.as_deref(), Some("popsicle-local"));
    assert!(spec.fork_id.is_none());
    assert!(spec.telemetry_endpoints.is_none());
    let properties = spec.properties.clone().unwrap();
    assert_eq!(
        properties,
        vec![
            ("tokenSymbol".to_string(), PropertyValue::Text("UNIT".to_string())),
            ("tokenDecimals".to_string(), PropertyValue::Number(12)),
            ("ss58Format".to_string(), PropertyValue::Number(42)),
        ]
    );
    assert_eq!(spec.extensions.relay_chain, "rococo-local");
    assert_eq!(spec.extensions.para_id, 2000);
    let dev = development_config();
    assert_eq!(spec.genesis.invulnerables, dev.genesis.invulnerables);
    assert_eq!(spec.genesis.endowed_accounts, dev.genesis.endowed_accounts);
    assert_eq!(spec.genesis.root_key, dev.genesis.root_key);
}

#[test]
fn try_configs_succeed_with_the_development_seeds() {
    let dev = try_development_config().unwrap();
    assert_eq!(dev.id, "popsicle_dev");
    let local = try_local_testnet_config().unwrap();
    assert_eq!(local.id, "popsicle_local_testnet");
}

#[test]
fn extensions_try_get_returns_the_extensions() {
    let spec = local_testnet_config();
    let ext = Extensions::try_get(&spec).unwrap();
    assert_eq!(ext, &Extensions { relay_chain: "rococo-local".to_string(), para_id: 2000 });
}

#[test]
fn session_keys_hold_the_aura_key() {
    let key = [7u8; 32];
    assert_eq!(popsicle_session_keys(key), SessionKeys { aura: key });
}

#[test]
fn genesis_adds_a_missing_root_key_at_the_end() {
    let a = [1u8; 32];
    let b = [2u8; 32];
    let root = [3u8; 32];
    let config = popsicle_genesis(vec![(a, [9u8; 32])], vec![a, b], root, 1000, 5, vec![0xde, 0xad]);
    assert_eq!(config.balances.balances, vec![(a, ENDOWMENT), (b, ENDOWMENT), (root, ENDOWMENT)]);
    assert_eq!(config.sudo.key, Some(root));
    assert_eq!(config.system.code, vec![0xde, 0xad]);
    assert_eq!(config.parachain_info.parachain_id, 1000);
}

#[test]
fn genesis_keeps_an_endowed_root_key_once() {
    let a = [1u8; 32];
    let b = [2u8; 32];
    let config = popsicle_genesis(vec![], vec![a, b], b, 2000, 1, vec![]);
    assert_eq!(config.balances.balances, vec![(a, ENDOWMENT), (b, ENDOWMENT)]);
    assert_eq!(config.sudo.key, Some(b));
}

#[test]
fn genesis_collators_and_session_keys() {
    let a = [1u8; 32];
    let b = [2u8; 32];
    let aura_a = [11u8; 32];
    let aura_b = [12u8; 32];
    let config = popsicle_genesis(vec![(a, aura_a), (b, aura_b)], vec![], a, 2000, 1_000_000_000, vec![]);
    assert_eq!(config.collator_selection.invulnerables, vec![a, b]);
    assert_eq!(config.collator_selection.candidacy_bond, 16_000_000_000);
    assert_eq!(config.collator_selection.desired_candidates, 0);
    assert_eq!(
        config.session.keys,
        vec![(a, a, SessionKeys { aura: aura_a }), (b, b, SessionKeys { aura: aura_b })]
    );
    assert_eq!(config.balances.balances, vec![(a, ENDOWMENT)]);
}

#[test]
fn genesis_assets_belong_to_alice_and_bob() {
    let alice = get_account_id_from_seed("Alice");
    let bob = get_account_id_from_seed("Bob");
    let config = popsicle_genesis(vec![], vec![], alice, 2000, 1, vec![]);
    assert_eq!(
        config.assets.assets,
        vec![(1, alice, true, 100_000_000_000), (2, bob, true, 100_000_000_000)]
    );
    assert_eq!(
        config.assets.metadata,
        vec![
            (1, b"asset-1".to_vec(), b"ALT1".to_vec(), 10),
            (2, b"asset-2".to_vec(), b"ALT2".to_vec(), 10),
        ]
    );
    assert_eq!(config.assets.accounts, vec![(1, alice, 500_000_000_000), (2, bob, 500_000_000_000)]);
}

#[test]
fn genesis_safe_xcm_version_is_the_latest() {
    let config = popsicle_genesis(vec![], vec![], [0u8; 32], 2000, 1, vec![]);
    assert_eq!(config.polkadot_xcm.safe_xcm_version, Some(5));
}

#[test]
fn try_genesis_refuses_an_overflowing_bond() {
    assert!(try_popsicle_genesis(vec![], vec![], [0u8; 32], 2000, u128::MAX, vec![]).is_none());
    assert!(try_popsicle_genesis(vec![], vec![], [0u8; 32], 2000, u128::MAX / 16, vec![]).is_some());
}

#[test]
fn development_genesis_endows_the_development_accounts() {
    let spec = development_config();
    let g = spec.genesis;
    let endowed = g.endowed_accounts.clone();
    let config = popsicle_genesis(g.invulnerables, g.endowed_accounts, g.root_key, g.para_id, 1, vec![]);
    let expected: Vec<([u8; 32], u128)> = endowed.iter().map(|a| (*a, ENDOWMENT)).collect();
    assert_eq!(config.balances.balances, expected);
    assert_eq!(config.balances.balances.len(), 12);
}
