//! The chains, routers and bridges the engine is configured with. The
//! endpoints of a chain come from a list of named settings; everything else
//! is fixed.

use std::collections::HashMap;
use vstd::hash_map::StringHashMap;
use vstd::prelude::*;
use crate::text::{chars_of, reads_as};

verus! {

/// The address of the Balancer V3 vault, the same on every chain.
pub const BALANCER_V3_VAULT: &'static str = "0xbA1333333333a1BA1108E8412f11850A5C319bA9";

/// The configuration of one chain.
#[derive(Debug, Clone)]
pub struct ChainConfig {
    pub name: String,
    pub rpc: String,
    pub wss: Option<String>,
    pub aave_pool: String,
    pub uniswap_router: String,
    pub curve_router: String,
    pub native: String,
}

/// What a `ChainConfig` holds, as mathematical values.
pub struct ChainConfigView {
    pub name: Seq<char>,
    pub rpc: Seq<char>,
    pub wss: Option<Seq<char>>,
    pub aave_pool: Seq<char>,
    pub uniswap_router: Seq<char>,
    pub curve_router: Seq<char>,
    pub native: Seq<char>,
}

impl View for ChainConfig {
    type V = ChainConfigView;

    open spec fn view(&self) -> ChainConfigView {
        ChainConfigView {
            name: self.name@,
            rpc: self.rpc@,
            wss: match self.wss {
                Some(w) => Some(w@),
                None => None,
            },
            aave_pool: self.aave_pool@,
            uniswap_router: self.uniswap_router@,
            curve_router: self.curve_router@,
            native: self.native@,
        }
    }
}

/// The routers of the exchanges on one chain: pairs of an exchange's name and
/// its router's address. Where a name stands twice, the first pair counts.
#[derive(Debug, Clone)]
pub struct DexRouters {
    pub routers: Vec<(String, String)>,
}

/// The configuration of one intent-based bridge.
#[derive(Debug, Clone)]
pub struct BridgeConfig {
    pub name: String,
    pub typical_time_seconds: u32,
    pub max_time_seconds: u32,
    pub fee_range_bps: Vec<u32>,
    pub description: String,
}

/// The whole configuration.
pub struct Config {
    pub chains: HashMap<u64, ChainConfig>,
    pub dex_routers: HashMap<u64, DexRouters>,
    pub intent_based_bridges: StringHashMap<BridgeConfig>,
    pub lifi_supported_chains: Vec<u64>,
}

/// The value of the first pair of `env` named `name`, if there is one.
pub open spec fn setting(env: Seq<(String, String)>, name: Seq<char>) -> Option<Seq<char>>
    decreases env.len(),
{
    if env.len() == 0 {
        None
    } else if env[0].0@ == name {
        Some(env[0].1@)
    } else {
        setting(env.drop_first(), name)
    }
}

/// The value of a setting, or the empty text where it is not set.
pub open spec fn setting_or_empty(env: Seq<(String, String)>, name: Seq<char>) -> Seq<char> {
    match setting(env, name) {
        Some(v) => v,
        None => Seq::empty(),
    }
}

/// The chains that are configured.
pub open spec fn configured_chains() -> Set<u64> {
    set![1u64, 137u64, 42161u64, 10u64, 8453u64]
}

/// The configuration of a configured chain under the settings `env`.
pub open spec fn chain_config_of(id: u64, env: Seq<(String, String)>) -> ChainConfigView {
    if id == 1 {
        ChainConfigView {
            name: "ethereum"@,
            rpc: setting_or_empty(env, "RPC_ETHEREUM"@),
            wss: setting(env, "WSS_ETHEREUM"@),
            aave_pool: "0x87870Bca3F3fD6335C3F4ce8392D69350B4fA4E2"@,
            uniswap_router: "0xE592427A0AEce92De3Edee1F18E0157C05861564"@,
            curve_router: "0x99a58482BD75cbab83b27EC03CA68fF489b5788f"@,
            native: "ETH"@,
        }
    } else if id == 137 {
        ChainConfigView {
            name: "polygon"@,
            rpc: setting_or_empty(env, "RPC_POLYGON"@),
            wss: setting(env, "WSS_POLYGON"@),
            aave_pool: "0x794a61358D6845594F94dc1DB02A252b5b4814aD"@,
            uniswap_router: "0xE592427A0AEce92De3Edee1F18E0157C05861564"@,
            curve_router: "0x445FE580eF8d70FF569aB36e80c647af338db351"@,
            native: "MATIC"@,
        }
    } else if id == 42161 {
        ChainConfigView {
            name: "arbitrum"@,
            rpc: setting_or_empty(env, "RPC_ARBITRUM"@),
            wss: setting(env, "WSS_ARBITRUM"@),
            aave_pool: "0x794a61358D6845594F94dc1DB02A252b5b4814aD"@,
            uniswap_router: "0xE592427A0AEce92De3Edee1F18E0157C05861564"@,
            curve_router: "0x0000000000000000000000000000000000000000"@,
            native: "ETH"@,
        }
    } else if id == 10 {
        ChainConfigView {
            name: "optimism"@,
            rpc: setting_or_empty(env, "RPC_OPTIMISM"@),
            wss: setting(env, "WSS_OPTIMISM"@),
            aave_pool: "0x794a61358D6845594F94dc1DB02A252b5b4814aD"@,
            uniswap_router: "0xE592427A0AEce92De3Edee1F18E0157C05861564"@,
            curve_router: "0x0000000000000000000000000000000000000000"@,
            native: "ETH"@,
        }
    } else {
        ChainConfigView {
            name: "base"@,
            rpc: setting_or_empty(env, "RPC_BASE"@),
            wss: setting(env, "WSS_BASE"@),
            aave_pool: "0x0000000000000000000000000000000000000000"@,
            uniswap_router: "0x2626664c2603336E57B271c5C0b26F421741e481"@,
            curve_router: "0x0000000000000000000000000000000000000000"@,
            native: "ETH"@,
        }
    }
}

/// Whether `chains` holds the five configured chains as `env` sets them.
pub open spec fn chains_loaded(chains: Map<u64, ChainConfig>, env: Seq<(String, String)>) -> bool {
    &&& chains.dom() =~= configured_chains()
    &&& forall|id: u64| #[trigger]
        chains.contains_key(id) ==> chains[id]@ == chain_config_of(id, env)
}

/// Whether `routers` holds the routers of the exchanges on Ethereum and on
/// Polygon.
pub open spec fn routers_loaded(routers: Map<u64, DexRouters>) -> bool {
    &&& routers.dom() =~= set![1u64, 137u64]
    &&& routers[1].routers@.len() == 2
    &&& routers[1].routers@[0].0@ == "UNIV2"@
    &&& routers[1].routers@[0].1@ == "0x7a250d5630B4cF539739dF2C5dAcb4c659F2488D"@
    &&& routers[1].routers@[1].0@ == "SUSHI"@
    &&& routers[1].routers@[1].1@ == "0xd9e1cE17f2641f24aE83637ab66a2cca9C378B9F"@
    &&& routers[137].routers@.len() == 2
    &&& routers[137].routers@[0].0@ == "QUICKSWAP"@
    &&& routers[137].routers@[0].1@ == "0xa5E0829CaCEd8fFDD4De3c43696c57F7D7A678ff"@
    &&& routers[137].routers@[1].0@ == "SUSHI"@
    &&& routers[137].routers@[1].1@ == "0x1b02dA8Cb0d097eB8D57A175b88c7D8b47997506"@
}

/// Whether `b` is the bridge configuration with these parts.
pub open spec fn is_bridge(
    b: BridgeConfig,
    name: Seq<char>,
    typical: u32,
    max: u32,
    fee_low: u32,
    fee_high: u32,
    description: Seq<char>,
) -> bool {
    &&& b.name@ == name
    &&& b.typical_time_seconds == typical
    &&& b.max_time_seconds == max
    &&& b.fee_range_bps@ == seq![fee_low, fee_high]
    &&& b.description@ == description
}

/// Whether `bridges` holds the three intent-based bridges.
pub open spec fn bridges_loaded(bridges: Map<Seq<char>, BridgeConfig>) -> bool {
    &&& bridges.dom() =~= set!["across"@, "stargate"@, "hop"@]
    &&& is_bridge(
        bridges["across"@],
        "Across Protocol"@,
        30,
        180,
        5,
        30,
        "Fastest intent-based bridge using solver network"@,
    )
    &&& is_bridge(
        bridges["stargate"@],
        "Stargate Finance"@,
        60,
        300,
        6,
        50,
        "Fast and reliable LayerZero-based bridge"@,
    )
    &&& is_bridge(
        bridges["hop"@],
        "Hop Protocol"@,
        120,
        600,
        10,
        100,
        "Popular bridge with good liquidity"@,
    )
}

/// The chains that the LI.FI aggregator serves.
pub open spec fn lifi_chains() -> Seq<u64> {
    seq![
        1u64,
        137u64,
        42161u64,
        10u64,
        8453u64,
        56u64,
        43114u64,
        250u64,
        59144u64,
        534352u64,
        5000u64,
        324u64,
        81457u64,
        42220u64,
        204u64,
    ]
}

/// The value of the first pair named `name`, if there is one.
pub fn lookup_setting(env: &Vec<(String, String)>, name: &str) -> (r: Option<String>)
    ensures
        match r {
            Some(v) => setting(env@, name@) == Some(v@),
            None => setting(env@, name@) is None,
        },
{
    let mut i: usize = 0;
    assert(env@.skip(0) =~= env@);
    while i < env.len()
        invariant
            i <= env.len(),
            setting(env@, name@) == setting(env@.skip(i as int), name@),
        decreases env.len() - i,
    {
        let key: Vec<char> = chars_of(env[i].0.as_str());
        assert(env@.skip(i as int)[0] == env@[i as int]);
        if reads_as(key.as_slice(), name) {
            return Some(env[i].1.clone());
        }
        assert(env@.skip(i as int).drop_first() =~= env@.skip(i as int + 1));
        i = i + 1;
    }
    None
}

/// The value of a setting, or the empty text where it is not set.
fn setting_or_default(env: &Vec<(String, String)>, name: &str) -> (r: String)
    ensures
        r@ == setting_or_empty(env@, name@),
{
    match lookup_setting(env, name) {
        Some(v) => v,
        None => String::new(),
    }
}

/// A chain's configuration from its fixed parts and its two settings.
fn chain(
    env: &Vec<(String, String)>,
    name: &str,
    rpc_key: &str,
    wss_key: &str,
    aave_pool: &str,
    uniswap_router: &str,
    curve_router: &str,
    native: &str,
) -> (c: ChainConfig)
    ensures
        c@ == (ChainConfigView {
            name: name@,
            rpc: setting_or_empty(env@, rpc_key@),
            wss: setting(env@, wss_key@),
            aave_pool: aave_pool@,
            uniswap_router: uniswap_router@,
            curve_router: curve_router@,
            native: native@,
        }),
{
    ChainConfig {
        name: name.to_owned(),
        rpc: setting_or_default(env, rpc_key),
        wss: lookup_setting(env, wss_key),
        aave_pool: aave_pool.to_owned(),
        uniswap_router: uniswap_router.to_owned(),
        curve_router: curve_router.to_owned(),
        native: native.to_owned(),
    }
}

impl DexRouters {
    /// The address of the router of the exchange named `name`, if there is one.
    pub fn get(&self, name: &str) -> (r: Option<String>)
        ensures
            match r {
                Some(a) => setting(self.routers@, name@) == Some(a@),
                None => setting(self.routers@, name@) is None,
            },
    {
        lookup_setting(&self.routers, name)
    }
}

impl Default for Config {
    /// The least configuration: no chain, router or bridge, and three chains
    /// in the chain list.
    fn default() -> (c: Config)
        ensures
            c.chains@ =~= Map::<u64, ChainConfig>::empty(),
            c.dex_routers@.dom() =~= Set::<u64>::empty(),
            c.intent_based_bridges@.dom() =~= Set::<Seq<char>>::empty(),
            c.lifi_supported_chains@ == seq![1u64, 137u64, 42161u64],
    {
        Config {
            chains: HashMap::new(),
            dex_routers: HashMap::new(),
            intent_based_bridges: StringHashMap::new(),
            lifi_supported_chains: vec![1, 137, 42161],
        }
    }
}

impl Config {
    /// The configuration under the settings `env`: the five configured chains
    /// with their endpoints, and the fixed routers, bridges and chain list.
    pub fn from_env(env: &Vec<(String, String)>) -> (c: Config)
        ensures
            chains_loaded(c.chains@, env@),
            routers_loaded(c.dex_routers@),
            bridges_loaded(c.intent_based_bridges@),
            c.lifi_supported_chains@ == lifi_chains(),
    {
        let chains = Config::load_chains(env);
        let dex_routers = Config::load_dex_routers();
        let intent_based_bridges = Config::load_bridges();
        let lifi_supported_chains: Vec<u64> = vec![
            1,
            137,
            42161,
            10,
            8453,
            56,
            43114,
            250,
            59144,
            534352,
            5000,
            324,
            81457,
            42220,
            204,
        ];
        Config { chains, dex_routers, intent_based_bridges, lifi_supported_chains }
    }

    /// The five configured chains, with their endpoints as `env` sets them.
    pub fn load_chains(env: &Vec<(String, String)>) -> (chains: HashMap<u64, ChainConfig>)
        ensures
            chains_loaded(chains@, env@),
    {
        let mut chains: HashMap<u64, ChainConfig> = HashMap::new();
        chains.insert(
            1,
            chain(
                env,
                "ethereum",
                "RPC_ETHEREUM",
                "WSS_ETHEREUM",
                "0x87870Bca3F3fD6335C3F4ce8392D69350B4fA4E2",
                "0xE592427A0AEce92De3Edee1F18E0157C05861564",
                "0x99a58482BD75cbab83b27EC03CA68fF489b5788f",
                "ETH",
            ),
        );
        chains.insert(
            137,
            chain(
                env,
                "polygon",
                "RPC_POLYGON",
                "WSS_POLYGON",
                "0x794a61358D6845594F94dc1DB02A252b5b4814aD",
                "0xE592427A0AEce92De3Edee1F18E0157C05861564",
                "0x445FE580eF8d70FF569aB36e80c647af338db351",
                "MATIC",
            ),
        );
        chains.insert(
            42161,
            chain(
                env,
                "arbitrum",
                "RPC_ARBITRUM",
                "WSS_ARBITRUM",
                "0x794a61358D6845594F94dc1DB02A252b5b4814aD",
                "0xE592427A0AEce92De3Edee1F18E0157C05861564",
                "0x0000000000000000000000000000000000000000",
                "ETH",
            ),
        );
        chains.insert(
            10,
            chain(
                env,
                "optimism",
                "RPC_OPTIMISM",
                "WSS_OPTIMISM",
                "0x794a61358D6845594F94dc1DB02A252b5b4814aD",
                "0xE592427A0AEce92De3Edee1F18E0157C05861564",
                "0x0000000000000000000000000000000000000000",
                "ETH",
            ),
        );
        chains.insert(
            8453,
            chain(
                env,
                "base",
                "RPC_BASE",
                "WSS_BASE",
                "0x0000000000000000000000000000000000000000",
                "0x2626664c2603336E57B271c5C0b26F421741e481",
                "0x0000000000000000000000000000000000000000",
                "ETH",
            ),
        );
        chains
    }

    /// The routers of the exchanges on Ethereum and on Polygon.
    pub fn load_dex_routers() -> (routers: HashMap<u64, DexRouters>)
        ensures
            routers_loaded(routers@),
    {
        let mut dex_routers: HashMap<u64, DexRouters> = HashMap::new();
        let mut eth_routers: Vec<(String, String)> = Vec::new();
        eth_routers.push(
            ("UNIV2".to_owned(), "0x7a250d5630B4cF539739dF2C5dAcb4c659F2488D".to_owned()),
        );
        eth_routers.push(
            ("SUSHI".to_owned(), "0xd9e1cE17f2641f24aE83637ab66a2cca9C378B9F".to_owned()),
        );
        dex_routers.insert(1, DexRouters { routers: eth_routers });
        let mut poly_routers: Vec<(String, String)> = Vec::new();
        poly_routers.push(
            ("QUICKSWAP".to_owned(), "0xa5E0829CaCEd8fFDD4De3c43696c57F7D7A678ff".to_owned()),
        );
        poly_routers.push(
            ("SUSHI".to_owned(), "0x1b02dA8Cb0d097eB8D57A175b88c7D8b47997506".to_owned()),
        );
        dex_routers.insert(137, DexRouters { routers: poly_routers });
        dex_routers
    }

    /// The three intent-based bridges.
    pub fn load_bridges() -> (bridges: StringHashMap<BridgeConfig>)
        ensures
            bridges_loaded(bridges@),
    {
        let mut bridges: StringHashMap<BridgeConfig> = StringHashMap::new();
        proof {
            reveal_strlit("across");
            reveal_strlit("stargate");
            reveal_strlit("hop");
            assert("across"@.len() == 6 && "stargate"@.len() == 8 && "hop"@.len() == 3);
        }
        bridges.insert(
            "across".to_owned(),
            BridgeConfig {
                name: "Across Protocol".to_owned(),
                typical_time_seconds: 30,
                max_time_seconds: 180,
                fee_range_bps: vec![5, 30],
                description: "Fastest intent-based bridge using solver network".to_owned(),
            },
        );
        bridges.insert(
            "stargate".to_owned(),
            BridgeConfig {
                name: "Stargate Finance".to_owned(),
                typical_time_seconds: 60,
                max_time_seconds: 300,
                fee_range_bps: vec![6, 50],
                description: "Fast and reliable LayerZero-based bridge".to_owned(),
            },
        );
        bridges.insert(
            "hop".to_owned(),
            BridgeConfig {
                name: "Hop Protocol".to_owned(),
                typical_time_seconds: 120,
                max_time_seconds: 600,
                fee_range_bps: vec![10, 100],
                description: "Popular bridge with good liquidity".to_owned(),
            },
        );
        bridges
    }

    /// The configuration of a chain, if the chain is configured.
    pub fn get_chain(&self, chain_id: u64) -> (r: Option<&ChainConfig>)
        ensures
            match r {
                Some(c) => self.chains@.contains_key(chain_id) && *c == self.chains@[chain_id],
                None => !self.chains@.contains_key(chain_id),
            },
    {
        self.chains.get(&chain_id)
    }

    /// Whether a chain is configured.
    pub fn is_chain_supported(&self, chain_id: u64) -> (r: bool)
        ensures
            r == self.chains@.contains_key(chain_id),
    {
        self.chains.contains_key(&chain_id)
    }
}

} // verus!
