//! The Popsicle chain specifications and their genesis configuration.

use crate::keys::{
    dev_public, try_get_from_seed, get_account_id_from_seed, get_collator_keys_from_seed, get_from_seed, seed_derives, AccountId,
    AuraId,
};
use vstd::prelude::*;
use vstd::string::*;

verus! {

/// A balance of the runtime's native token or of an asset.
pub type Balance = u128;

/// The id of a parachain.
pub type ParaId = u32;

/// The id of the Popsicle parachain.
pub const PARA_ID: u32 = 2000;

/// What every endowed account holds at genesis: 2^60.
pub const ENDOWMENT: Balance = 1152921504606846976;

/// The extensions of a chain specification.
#[derive(Debug, Clone, PartialEq)]
pub struct Extensions {
    /// The relay chain of the parachain.
    pub relay_chain: String,
    /// The id of the parachain.
    pub para_id: u32,
}

impl Extensions {
    /// The extensions of the given chain specification.
    pub fn try_get(chain_spec: &ChainSpec) -> (ext: Option<&Extensions>)
        ensures
            ext == Some(&chain_spec.extensions),
    {
        Some(&chain_spec.extensions)
    }
}

/// The kind of a chain.
#[derive(Debug, Clone, PartialEq)]
pub enum ChainType {
    /// A development chain that runs mainly on one node.
    Development,
    /// A local chain that runs on several nodes of one machine.
    Local,
    /// A live chain.
    Live,
    /// Some other kind of chain.
    Custom(String),
}

/// A value of a chain property.
#[derive(Debug, Clone, PartialEq)]
pub enum PropertyValue {
    /// A text value.
    Text(String),
    /// A number.
    Number(u64),
}

/// The session keys of a validator.
#[derive(Debug, Clone, Copy, PartialEq, Eq)]
pub struct SessionKeys {
    /// The Aura key.
    pub aura: AuraId,
}

/// Generate the session keys from individual elements.
pub fn popsicle_session_keys(keys: AuraId) -> (session_keys: SessionKeys)
    ensures
        session_keys == (SessionKeys { aura: keys }),
{
    SessionKeys { aura: keys }
}

/// What the genesis configuration is built from.
#[derive(Debug, Clone)]
pub struct GenesisParams {
    /// The initial collators: account and Aura key.
    pub invulnerables: Vec<(AccountId, AuraId)>,
    /// The accounts endowed with `ENDOWMENT`.
    pub endowed_accounts: Vec<AccountId>,
    /// The sudo key.
    pub root_key: AccountId,
    /// The parachain id.
    pub para_id: ParaId,
}

/// A chain specification.
#[derive(Debug, Clone)]
pub struct ChainSpec {
    /// The name of the chain.
    pub name: String,
    /// The id of the chain.
    pub id: String,
    /// The kind of chain.
    pub chain_type: ChainType,
    /// What the genesis configuration is built from.
    pub genesis: GenesisParams,
    /// The boot nodes.
    pub boot_nodes: Vec<String>,
    /// The telemetry endpoints: URL and verbosity.
    pub telemetry_endpoints: Option<Vec<(String, u8)>>,
    /// The network protocol id.
    pub protocol_id: Option<String>,
    /// The fork id.
    pub fork_id: Option<String>,
    /// The chain properties, in the order they were inserted.
    pub properties: Option<Vec<(String, PropertyValue)>>,
    /// The extensions.
    pub extensions: Extensions,
}

/// The genesis configuration of `frame_system`.
#[derive(Debug, Clone)]
pub struct SystemConfig {
    /// The runtime's code.
    pub code: Vec<u8>,
}

/// The genesis configuration of the balances pallet.
#[derive(Debug, Clone)]
pub struct BalancesConfig {
    /// The accounts and their free balances.
    pub balances: Vec<(AccountId, Balance)>,
}

/// The genesis configuration of the assets pallet.
#[derive(Debug, Clone)]
pub struct AssetsConfig {
    /// The assets: id, owner, whether it is sufficient, minimum balance.
    pub assets: Vec<(u32, AccountId, bool, Balance)>,
    /// The metadata: id, name, symbol, decimals.
    pub metadata: Vec<(u32, Vec<u8>, Vec<u8>, u8)>,
    /// The accounts that hold assets: id, account, balance.
    pub accounts: Vec<(u32, AccountId, Balance)>,
}

/// The genesis configuration of the parachain-info pallet.
#[derive(Debug, Clone, Copy)]
pub struct ParachainInfoConfig {
    /// The id of this parachain.
    pub parachain_id: ParaId,
}

/// The genesis configuration of the collator-selection pallet.
#[derive(Debug, Clone)]
pub struct CollatorSelectionConfig {
    /// The collators that are always selected.
    pub invulnerables: Vec<AccountId>,
    /// The bond of a candidate.
    pub candidacy_bond: Balance,
    /// The number of candidates wanted besides the invulnerables.
    pub desired_candidates: u32,
}

/// The genesis configuration of the session pallet.
#[derive(Debug, Clone)]
pub struct SessionConfig {
    /// Account, validator id and session keys of each validator.
    pub keys: Vec<(AccountId, AccountId, SessionKeys)>,
}

/// The genesis configuration of the sudo pallet.
#[derive(Debug, Clone, Copy)]
pub struct SudoConfig {
    /// The sudo key.
    pub key: Option<AccountId>,
}

/// The genesis configuration of the XCM pallet.
#[derive(Debug, Clone, Copy)]
pub struct PolkadotXcmConfig {
    /// The XCM version that is assumed safe to use with other chains.
    pub safe_xcm_version: Option<u32>,
}

/// The genesis configuration of the runtime: the parts that the chain
/// specification sets; every other pallet starts from its default.
#[derive(Debug, Clone)]
pub struct RuntimeGenesisConfig {
    pub system: SystemConfig,
    pub balances: BalancesConfig,
    pub assets: AssetsConfig,
    pub parachain_info: ParachainInfoConfig,
    pub collator_selection: CollatorSelectionConfig,
    pub session: SessionConfig,
    pub sudo: SudoConfig,
    pub polkadot_xcm: PolkadotXcmConfig,
}

/// The latest XCM version of the `xcm` crate.
pub open spec fn latest_xcm_version_spec() -> u32 {
    5
}

/// Reads `xcm::prelude::XCM_VERSION` (crate `staging-xcm`). Claimed: it is 5, the `VERSION` of the
/// crate's `v5` module, which its `latest` module re-exports.
#[verifier::external_body]
fn latest_xcm_version() -> (version: u32)
    ensures
        version == latest_xcm_version_spec(),
{
    staging_xcm::prelude::XCM_VERSION
}

/// The endowed accounts with the root key added at the end when it is not among them.
pub open spec fn with_root_key(endowed: Seq<AccountId>, root_key: AccountId) -> Seq<AccountId> {
    if endowed.contains(root_key) {
        endowed
    } else {
        endowed.push(root_key)
    }
}

/// Each account with the balance `ENDOWMENT`.
pub open spec fn endowed_balances(accounts: Seq<AccountId>) -> Seq<(AccountId, Balance)> {
    accounts.map_values(|a: AccountId| (a, ENDOWMENT))
}

/// The accounts of the collators.
pub open spec fn collator_accounts(invulnerables: Seq<(AccountId, AuraId)>) -> Seq<AccountId> {
    invulnerables.map_values(|c: (AccountId, AuraId)| c.0)
}

/// The session keys of the collators: each account is its own validator id.
pub open spec fn collator_session_keys(invulnerables: Seq<(AccountId, AuraId)>) -> Seq<(AccountId, AccountId, SessionKeys)> {
    invulnerables.map_values(|c: (AccountId, AuraId)| (c.0, c.0, SessionKeys { aura: c.1 }))
}

/// The bytes of a text whose characters are all ASCII.
pub open spec fn ascii_bytes(text: Seq<char>) -> Seq<u8> {
    text.map_values(|c: char| c as u8)
}

/// Whether two accounts are the same.
fn account_eq(a: &AccountId, b: &AccountId) -> (same: bool)
    ensures
        same == (*a == *b),
{
    let mut i: usize = 0;
    while i < 32
        invariant
            i <= 32,
            forall|j: int| 0 <= j < i ==> a[j] == b[j],
        decreases 32 - i,
    {
        if a[i] != b[i] {
            return false;
        }
        i = i + 1;
    }
    assert(*a =~= *b);
    true
}

/// Whether `account` is among `accounts`.
fn contains_account(accounts: &Vec<AccountId>, account: &AccountId) -> (found: bool)
    ensures
        found == accounts@.contains(*account),
{
    let mut i: usize = 0;
    while i < accounts.len()
        invariant
            i <= accounts@.len(),
            forall|j: int| 0 <= j < i ==> accounts@[j] != *account,
        decreases accounts@.len() - i,
    {
        if account_eq(&accounts[i], account) {
            return true;
        }
        i = i + 1;
    }
    false
}

/// The genesis configuration that `popsicle_genesis` builds from its arguments.
pub open spec fn is_popsicle_genesis(
    config: RuntimeGenesisConfig,
    invulnerables: Seq<(AccountId, AuraId)>,
    endowed_accounts: Seq<AccountId>,
    root_key: AccountId,
    id: ParaId,
    existential_deposit: Balance,
    code: Seq<u8>,
) -> bool {
    &&& config.system.code@ == code
    &&& config.balances.balances@ == endowed_balances(with_root_key(endowed_accounts, root_key))
    &&& config.assets.assets@ == seq![
        (1u32, dev_public("Alice"@), true, 100_000_000_000u128),
        (2u32, dev_public("Bob"@), true, 100_000_000_000u128),
    ]
    &&& config.assets.metadata@.len() == 2
    &&& config.assets.metadata@[0].0 == 1
    &&& config.assets.metadata@[0].1@ == ascii_bytes("asset-1"@)
    &&& config.assets.metadata@[0].2@ == ascii_bytes("ALT1"@)
    &&& config.assets.metadata@[0].3 == 10
    &&& config.assets.metadata@[1].0 == 2
    &&& config.assets.metadata@[1].1@ == ascii_bytes("asset-2"@)
    &&& config.assets.metadata@[1].2@ == ascii_bytes("ALT2"@)
    &&& config.assets.metadata@[1].3 == 10
    &&& config.assets.accounts@ == seq![
        (1u32, dev_public("Alice"@), 500_000_000_000u128),
        (2u32, dev_public("Bob"@), 500_000_000_000u128),
    ]
    &&& config.parachain_info.parachain_id == id
    &&& config.collator_selection.invulnerables@ == collator_accounts(invulnerables)
    &&& config.collator_selection.candidacy_bond == existential_deposit * 16
    &&& config.collator_selection.desired_candidates == 0
    &&& config.session.keys@ == collator_session_keys(invulnerables)
    &&& config.sudo.key == Some(root_key)
    &&& config.polkadot_xcm.safe_xcm_version == Some(latest_xcm_version_spec())
}

/// The genesis configuration of the Popsicle runtime.
///
/// `existential_deposit` and `code` are the runtime's existential deposit and
/// its compiled code; the candidacy bond is 16 existential deposits.
pub fn popsicle_genesis(
    invulnerables: Vec<(AccountId, AuraId)>,
    endowed_accounts: Vec<AccountId>,
    root_key: AccountId,
    id: ParaId,
    existential_deposit: Balance,
    code: Vec<u8>,
) -> (config: RuntimeGenesisConfig)
    requires
        seed_derives("Alice"@),
        seed_derives("Bob"@),
        existential_deposit * 16 <= u128::MAX,
    ensures
        is_popsicle_genesis(config, invulnerables@, endowed_accounts@, root_key, id, existential_deposit, code@),
{
    let alice = get_from_seed("Alice");
    let bob = get_from_seed("Bob");

    // If the root key is not among the endowed accounts, add it.
    let mut endowed_accounts = endowed_accounts;
    if !contains_account(&endowed_accounts, &root_key) {
        endowed_accounts.push(root_key);
    }

    let mut balances: Vec<(AccountId, Balance)> = Vec::new();
    for i in 0..endowed_accounts.len()
        invariant
            balances@.len() == i,
            forall|j: int| 0 <= j < i ==> #[trigger] balances@[j] == (endowed_accounts@[j], ENDOWMENT),
    {
        balances.push((endowed_accounts[i], ENDOWMENT));
    }
    assert(balances@ =~= endowed_balances(endowed_accounts@));

    let mut collators: Vec<AccountId> = Vec::new();
    let mut keys: Vec<(AccountId, AccountId, SessionKeys)> = Vec::new();
    for i in 0..invulnerables.len()
        invariant
            collators@.len() == i,
            keys@.len() == i,
            forall|j: int| 0 <= j < i ==> #[trigger] collators@[j] == invulnerables@[j].0,
            forall|j: int|
                0 <= j < i ==> #[trigger] keys@[j] == (
                    invulnerables@[j].0,
                    invulnerables@[j].0,
                    SessionKeys { aura: invulnerables@[j].1 },
                ),
    {
        let (acc, aura) = invulnerables[i];
        collators.push(acc);
        keys.push((acc, acc, popsicle_session_keys(aura)));
    }
    assert(collators@ =~= collator_accounts(invulnerables@));
    assert(keys@ =~= collator_session_keys(invulnerables@));

    let assets = vec![(1u32, alice, true, 100_000_000_000u128), (2u32, bob, true, 100_000_000_000u128)];
    let metadata = vec![
        (1u32, vec![97u8, 115, 115, 101, 116, 45, 49], vec![65u8, 76, 84, 49], 10u8),
        (2u32, vec![97u8, 115, 115, 101, 116, 45, 50], vec![65u8, 76, 84, 50], 10u8),
    ];
    proof {
        reveal_strlit("asset-1");
        reveal_strlit("asset-2");
        reveal_strlit("ALT1");
        reveal_strlit("ALT2");
        assert(metadata@[0].1@ =~= ascii_bytes("asset-1"@));
        assert(metadata@[1].1@ =~= ascii_bytes("asset-2"@));
        assert(metadata@[0].2@ =~= ascii_bytes("ALT1"@));
        assert(metadata@[1].2@ =~= ascii_bytes("ALT2"@));
    }
    let accounts = vec![(1u32, alice, 500_000_000_000u128), (2u32, bob, 500_000_000_000u128)];
    assert(assets@ =~= seq![
        (1u32, dev_public("Alice"@), true, 100_000_000_000u128),
        (2u32, dev_public("Bob"@), true, 100_000_000_000u128),
    ]);
    assert(accounts@ =~= seq![
        (1u32, dev_public("Alice"@), 500_000_000_000u128),
        (2u32, dev_public("Bob"@), 500_000_000_000u128),
    ]);

    RuntimeGenesisConfig {
        system: SystemConfig { code },
        balances: BalancesConfig { balances },
        assets: AssetsConfig { assets, metadata, accounts },
        parachain_info: ParachainInfoConfig { parachain_id: id },
        collator_selection: CollatorSelectionConfig {
            invulnerables: collators,
            candidacy_bond: existential_deposit * 16,
            desired_candidates: 0,
        },
        session: SessionConfig { keys },
        sudo: SudoConfig { key: Some(root_key) },
        polkadot_xcm: PolkadotXcmConfig { safe_xcm_version: Some(latest_xcm_version()) },
    }
}

/// Whether `sp_core` derives a key from every development seed that the
/// chain specifications use.
pub open spec fn dev_seeds_derive() -> bool {
    &&& seed_derives("Alice"@)
    &&& seed_derives("Bob"@)
    &&& seed_derives("Charlie"@)
    &&& seed_derives("Dave"@)
    &&& seed_derives("Eve"@)
    &&& seed_derives("Ferdie"@)
    &&& seed_derives("Alice//stash"@)
    &&& seed_derives("Bob//stash"@)
    &&& seed_derives("Charlie//stash"@)
    &&& seed_derives("Dave//stash"@)
    &&& seed_derives("Eve//stash"@)
    &&& seed_derives("Ferdie//stash"@)
}

/// Whether `sp_core` derives a key from every development seed that the
/// chain specifications use.
pub fn dev_seeds_derive_check() -> (ok: bool)
    ensures
        ok == dev_seeds_derive(),
{
    try_get_from_seed("Alice").is_some() &&
    try_get_from_seed("Bob").is_some() &&
    try_get_from_seed("Charlie").is_some() &&
    try_get_from_seed("Dave").is_some() &&
    try_get_from_seed("Eve").is_some() &&
    try_get_from_seed("Ferdie").is_some() &&
    try_get_from_seed("Alice//stash").is_some() &&
    try_get_from_seed("Bob//stash").is_some() &&
    try_get_from_seed("Charlie//stash").is_some() &&
    try_get_from_seed("Dave//stash").is_some() &&
    try_get_from_seed("Eve//stash").is_some() &&
    try_get_from_seed("Ferdie//stash").is_some()
}

/// The development collators: Alice and Bob, with their Aura keys.
pub open spec fn dev_invulnerables() -> Seq<(AccountId, AuraId)> {
    seq![
        (dev_public("Alice"@), dev_public("Alice"@)),
        (dev_public("Bob"@), dev_public("Bob"@)),
    ]
}

/// The development accounts endowed at genesis.
pub open spec fn dev_endowed_accounts() -> Seq<AccountId> {
    seq![
        dev_public("Alice"@),
        dev_public("Bob"@),
        dev_public("Charlie"@),
        dev_public("Dave"@),
        dev_public("Eve"@),
        dev_public("Ferdie"@),
        dev_public("Alice//stash"@),
        dev_public("Bob//stash"@),
        dev_public("Charlie//stash"@),
        dev_public("Dave//stash"@),
        dev_public("Eve//stash"@),
        dev_public("Ferdie//stash"@),
    ]
}

/// What both chain specifications build their genesis configuration from.
pub open spec fn is_dev_genesis(genesis: GenesisParams) -> bool {
    &&& genesis.invulnerables@ == dev_invulnerables()
    &&& genesis.endowed_accounts@ == dev_endowed_accounts()
    &&& genesis.root_key == dev_public("Alice"@)
    &&& genesis.para_id == PARA_ID
}

/// The extensions of both chain specifications.
pub open spec fn is_popsicle_extensions(ext: Extensions) -> bool {
    &&& ext.relay_chain@ == "rococo-local"@
    &&& ext.para_id == PARA_ID
}

/// The token properties: symbol `UNIT`, 12 decimals, SS58 format 42.
pub open spec fn is_token_properties(properties: Seq<(String, PropertyValue)>) -> bool {
    &&& properties.len() == 3
    &&& properties[0].0@ == "tokenSymbol"@
    &&& properties[0].1 matches PropertyValue::Text(symbol) && symbol@ == "UNIT"@
    &&& properties[1].0@ == "tokenDecimals"@
    &&& properties[1].1 == PropertyValue::Number(12)
    &&& properties[2].0@ == "ss58Format"@
    &&& properties[2].1 == PropertyValue::Number(42)
}

/// The development chain specification.
pub open spec fn is_development_spec(spec: ChainSpec) -> bool {
    &&& spec.name@ == "Popsicle Development"@
    &&& spec.id@ == "popsicle_dev"@
    &&& spec.chain_type == ChainType::Development
    &&& is_dev_genesis(spec.genesis)
    &&& spec.boot_nodes@.len() == 0
    &&& spec.telemetry_endpoints is None
    &&& spec.protocol_id is None
    &&& spec.fork_id is None
    &&& spec.properties matches Some(properties) && is_token_properties(properties@)
    &&& is_popsicle_extensions(spec.extensions)
}

/// The local test network chain specification.
pub open spec fn is_local_testnet_spec(spec: ChainSpec) -> bool {
    &&& spec.name@ == "Popsicle Local Testnet"@
    &&& spec.id@ == "popsicle_local_testnet"@
    &&& spec.chain_type == ChainType::Local
    &&& is_dev_genesis(spec.genesis)
    &&& spec.boot_nodes@.len() == 0
    &&& spec.telemetry_endpoints is None
    &&& spec.protocol_id matches Some(id) && id@ == "popsicle-local"@
    &&& spec.fork_id is None
    &&& spec.properties matches Some(properties) && is_token_properties(properties@)
    &&& is_popsicle_extensions(spec.extensions)
}

fn dev_genesis_params() -> (genesis: GenesisParams)
    requires
        dev_seeds_derive(),
    ensures
        is_dev_genesis(genesis),
{
    let invulnerables = vec![
        (get_account_id_from_seed("Alice"), get_collator_keys_from_seed("Alice")),
        (get_account_id_from_seed("Bob"), get_collator_keys_from_seed("Bob")),
    ];
    let endowed_accounts = vec![
        get_account_id_from_seed("Alice"),
        get_account_id_from_seed("Bob"),
        get_account_id_from_seed("Charlie"),
        get_account_id_from_seed("Dave"),
        get_account_id_from_seed("Eve"),
        get_account_id_from_seed("Ferdie"),
        get_account_id_from_seed("Alice//stash"),
        get_account_id_from_seed("Bob//stash"),
        get_account_id_from_seed("Charlie//stash"),
        get_account_id_from_seed("Dave//stash"),
        get_account_id_from_seed("Eve//stash"),
        get_account_id_from_seed("Ferdie//stash"),
    ];
    let root_key = get_account_id_from_seed("Alice");
    assert(invulnerables@ =~= dev_invulnerables());
    assert(endowed_accounts@ =~= dev_endowed_accounts());
    GenesisParams { invulnerables, endowed_accounts, root_key, para_id: PARA_ID }
}

fn popsicle_extensions() -> (ext: Extensions)
    ensures
        is_popsicle_extensions(ext),
{
    // You MUST set this to the correct network!
    Extensions { relay_chain: String::from_str("rococo-local"), para_id: PARA_ID }
}

fn token_properties() -> (properties: Vec<(String, PropertyValue)>)
    ensures
        is_token_properties(properties@),
{
    let mut properties: Vec<(String, PropertyValue)> = Vec::new();
    properties.push((String::from_str("tokenSymbol"), PropertyValue::Text(String::from_str("UNIT"))));
    properties.push((String::from_str("tokenDecimals"), PropertyValue::Number(12)));
    properties.push((String::from_str("ss58Format"), PropertyValue::Number(42)));
    properties
}

/// The development chain specification: Alice and Bob collate, the
/// development accounts are endowed, Alice holds the sudo key, and the base
/// currency has a unit name and decimal places (the token properties).
pub fn development_config() -> (spec: ChainSpec)
    requires
        dev_seeds_derive(),
    ensures
        is_development_spec(spec),
{
    ChainSpec {
        name: String::from_str("Popsicle Development"),
        id: String::from_str("popsicle_dev"),
        chain_type: ChainType::Development,
        genesis: dev_genesis_params(),
        boot_nodes: Vec::new(),
        telemetry_endpoints: None,
        protocol_id: None,
        fork_id: None,
        properties: Some(token_properties()),
        extensions: popsicle_extensions(),
    }
}

/// The local test network chain specification: the development genesis with
/// the protocol id `popsicle-local` and the token properties.
pub fn local_testnet_config() -> (spec: ChainSpec)
    requires
        dev_seeds_derive(),
    ensures
        is_local_testnet_spec(spec),
{
    ChainSpec {
        name: String::from_str("Popsicle Local Testnet"),
        id: String::from_str("popsicle_local_testnet"),
        chain_type: ChainType::Local,
        genesis: dev_genesis_params(),
        boot_nodes: Vec::new(),
        telemetry_endpoints: None,
        protocol_id: Some(String::from_str("popsicle-local")),
        fork_id: None,
        properties: Some(token_properties()),
        extensions: popsicle_extensions(),
    }
}

/// The development chain specification, or `None` where `sp_core` derives no
/// key from one of the development seeds.
pub fn try_development_config() -> (spec: Option<ChainSpec>)
    ensures
        spec is Some <==> dev_seeds_derive(),
        spec matches Some(s) ==> is_development_spec(s),
{
    if dev_seeds_derive_check() {
        Some(development_config())
    } else {
        None
    }
}

/// The local test network chain specification, or `None` where `sp_core`
/// derives no key from one of the development seeds.
pub fn try_local_testnet_config() -> (spec: Option<ChainSpec>)
    ensures
        spec is Some <==> dev_seeds_derive(),
        spec matches Some(s) ==> is_local_testnet_spec(s),
{
    if dev_seeds_derive_check() {
        Some(local_testnet_config())
    } else {
        None
    }
}

/// The root key is always endowed: the endowed accounts keep their order, and
/// the root key is added, at the end, only when it was not among them.
pub proof fn law_root_key_is_endowed(endowed: Seq<AccountId>, root_key: AccountId)
    ensures
        with_root_key(endowed, root_key).contains(root_key),
        with_root_key(endowed, root_key).subrange(0, endowed.len() as int) == endowed,
        endowed.contains(root_key) ==> with_root_key(endowed, root_key) == endowed,
        !endowed.contains(root_key) ==> with_root_key(endowed, root_key) == endowed.push(root_key),
        forall|a: AccountId| #[trigger] with_root_key(endowed, root_key).contains(a) <==> (endowed.contains(a) || a == root_key),
{
    let w = with_root_key(endowed, root_key);
    if !endowed.contains(root_key) {
        assert(w[endowed.len() as int] == root_key);
        assert forall|a: AccountId| #[trigger] w.contains(a) implies (endowed.contains(a) || a == root_key) by {
            let k = choose|k: int| 0 <= k < w.len() && w[k] == a;
            if k < endowed.len() {
                assert(endowed[k] == a);
            }
        }
        assert forall|a: AccountId| endowed.contains(a) implies #[trigger] w.contains(a) by {
            let k = choose|k: int| 0 <= k < endowed.len() && endowed[k] == a;
            assert(w[k] == a);
        }
    }
    assert(w.subrange(0, endowed.len() as int) =~= endowed);
}

/// Every endowed account holds `ENDOWMENT`, in the order of the accounts.
pub proof fn law_every_endowed_account_holds_the_endowment(accounts: Seq<AccountId>)
    ensures
        endowed_balances(accounts).len() == accounts.len(),
        forall|i: int| 0 <= i < accounts.len() ==> #[trigger] endowed_balances(accounts)[i] == (accounts[i], ENDOWMENT),
{
}

/// The collators and the session keys go together: the `i`-th validator is
/// the `i`-th collator, its own validator id, with its Aura key.
pub proof fn law_session_keys_follow_collators(invulnerables: Seq<(AccountId, AuraId)>)
    ensures
        collator_accounts(invulnerables).len() == invulnerables.len(),
        collator_session_keys(invulnerables).len() == invulnerables.len(),
        forall|i: int| 0 <= i < invulnerables.len() ==> #[trigger] collator_session_keys(invulnerables)[i] == (
            collator_accounts(invulnerables)[i],
            collator_accounts(invulnerables)[i],
            SessionKeys { aura: invulnerables[i].1 },
        ),
{
}

/// In the development genesis the root key, Alice, is already endowed: the
/// balances are those of the development accounts, in their order.
pub proof fn law_dev_root_key_already_endowed()
    ensures
        with_root_key(dev_endowed_accounts(), dev_public("Alice"@)) == dev_endowed_accounts(),
{
    assert(dev_endowed_accounts()[0] == dev_public("Alice"@));
}

/// The development and the local test network chain specifications build
/// the same genesis and carry the same extensions and token properties; they
/// differ in name, id, kind and protocol id.
pub proof fn law_dev_and_local_share_genesis(dev: ChainSpec, local: ChainSpec)
    requires
        is_development_spec(dev),
        is_local_testnet_spec(local),
    ensures
        dev.genesis.invulnerables@ == local.genesis.invulnerables@,
        dev.genesis.endowed_accounts@ == local.genesis.endowed_accounts@,
        dev.genesis.root_key == local.genesis.root_key,
        dev.genesis.para_id == local.genesis.para_id,
        dev.extensions.relay_chain@ == local.extensions.relay_chain@,
        dev.extensions.para_id == local.extensions.para_id,
        dev.chain_type != local.chain_type,
        dev.properties matches Some(p) && is_token_properties(p@),
        local.properties matches Some(q) && is_token_properties(q@),
        dev.protocol_id is None && local.protocol_id is Some,
{
}

/// The genesis configuration of the Popsicle runtime, or `None` where
/// `sp_core` derives no key from the seed `Alice` or `Bob`, or where 16
/// existential deposits overflow a balance.
pub fn try_popsicle_genesis(
    invulnerables: Vec<(AccountId, AuraId)>,
    endowed_accounts: Vec<AccountId>,
    root_key: AccountId,
    id: ParaId,
    existential_deposit: Balance,
    code: Vec<u8>,
) -> (config: Option<RuntimeGenesisConfig>)
    ensures
        config is Some <==> (seed_derives("Alice"@) && seed_derives("Bob"@) && existential_deposit * 16 <= u128::MAX),
        config matches Some(c) ==> is_popsicle_genesis(c, invulnerables@, endowed_accounts@, root_key, id, existential_deposit, code@),
{
    if try_get_from_seed("Alice").is_some() && try_get_from_seed("Bob").is_some() && existential_deposit <= u128::MAX / 16 {
        Some(popsicle_genesis(invulnerables, endowed_accounts, root_key, id, existential_deposit, code))
    } else {
        None
    }
}

} // verus!
