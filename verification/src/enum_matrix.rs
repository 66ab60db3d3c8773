//! Identifiers of the chains the engine knows.

use vstd::prelude::*;

verus! {

/// A chain the engine knows by name.
#[derive(Debug, Clone, Copy, PartialEq, Eq, Hash, Structural)]
pub enum ChainId {
    Ethereum,
    Polygon,
    Arbitrum,
    Optimism,
    Base,
    Bsc,
    Avalanche,
    Fantom,
    Linea,
    Scroll,
    Mantle,
    ZkSync,
    Celo,
    OpBnb,
}

impl ChainId {
    /// The numeric identifier of the chain.
    pub open spec fn id(self) -> u64 {
        match self {
            ChainId::Ethereum => 1,
            ChainId::Polygon => 137,
            ChainId::Arbitrum => 42161,
            ChainId::Optimism => 10,
            ChainId::Base => 8453,
            ChainId::Bsc => 56,
            ChainId::Avalanche => 43114,
            ChainId::Fantom => 250,
            ChainId::Linea => 59144,
            ChainId::Scroll => 534352,
            ChainId::Mantle => 5000,
            ChainId::ZkSync => 324,
            ChainId::Celo => 42220,
            ChainId::OpBnb => 204,
        }
    }

    /// The numeric identifier of the chain.
    pub fn as_u64(&self) -> (v: u64)
        ensures
            v == self.id(),
    {
        match self {
            ChainId::Ethereum => 1,
            ChainId::Polygon => 137,
            ChainId::Arbitrum => 42161,
            ChainId::Optimism => 10,
            ChainId::Base => 8453,
            ChainId::Bsc => 56,
            ChainId::Avalanche => 43114,
            ChainId::Fantom => 250,
            ChainId::Linea => 59144,
            ChainId::Scroll => 534352,
            ChainId::Mantle => 5000,
            ChainId::ZkSync => 324,
            ChainId::Celo => 42220,
            ChainId::OpBnb => 204,
        }
    }

    /// The name of the chain, in lower case.
    pub open spec fn name_spec(self) -> Seq<char> {
        match self {
            ChainId::Ethereum => "ethereum"@,
            ChainId::Polygon => "polygon"@,
            ChainId::Arbitrum => "arbitrum"@,
            ChainId::Optimism => "optimism"@,
            ChainId::Base => "base"@,
            ChainId::Bsc => "bsc"@,
            ChainId::Avalanche => "avalanche"@,
            ChainId::Fantom => "fantom"@,
            ChainId::Linea => "linea"@,
            ChainId::Scroll => "scroll"@,
            ChainId::Mantle => "mantle"@,
            ChainId::ZkSync => "zksync"@,
            ChainId::Celo => "celo"@,
            ChainId::OpBnb => "opbnb"@,
        }
    }

    /// The name of the chain, in lower case.
    pub fn name(&self) -> (n: &'static str)
        ensures
            n@ == self.name_spec(),
    {
        match self {
            ChainId::Ethereum => "ethereum",
            ChainId::Polygon => "polygon",
            ChainId::Arbitrum => "arbitrum",
            ChainId::Optimism => "optimism",
            ChainId::Base => "base",
            ChainId::Bsc => "bsc",
            ChainId::Avalanche => "avalanche",
            ChainId::Fantom => "fantom",
            ChainId::Linea => "linea",
            ChainId::Scroll => "scroll",
            ChainId::Mantle => "mantle",
            ChainId::ZkSync => "zksync",
            ChainId::Celo => "celo",
            ChainId::OpBnb => "opbnb",
        }
    }

    /// Every chain the engine knows, each once.
    pub fn all() -> (chains: Vec<ChainId>)
        ensures
            chains@.len() == 14,
            forall|c: ChainId| chains@.contains(c),
            chains@.no_duplicates(),
    {
        let chains: Vec<ChainId> = vec![
            ChainId::Ethereum,
            ChainId::Polygon,
            ChainId::Arbitrum,
            ChainId::Optimism,
            ChainId::Base,
            ChainId::Bsc,
            ChainId::Avalanche,
            ChainId::Fantom,
            ChainId::Linea,
            ChainId::Scroll,
            ChainId::Mantle,
            ChainId::ZkSync,
            ChainId::Celo,
            ChainId::OpBnb,
        ];
        proof {
            assert forall|c: ChainId| chains@.contains(c) by {
                match c {
                    ChainId::Ethereum => assert(chains@[0] == c),
                    ChainId::Polygon => assert(chains@[1] == c),
                    ChainId::Arbitrum => assert(chains@[2] == c),
                    ChainId::Optimism => assert(chains@[3] == c),
                    ChainId::Base => assert(chains@[4] == c),
                    ChainId::Bsc => assert(chains@[5] == c),
                    ChainId::Avalanche => assert(chains@[6] == c),
                    ChainId::Fantom => assert(chains@[7] == c),
                    ChainId::Linea => assert(chains@[8] == c),
                    ChainId::Scroll => assert(chains@[9] == c),
                    ChainId::Mantle => assert(chains@[10] == c),
                    ChainId::ZkSync => assert(chains@[11] == c),
                    ChainId::Celo => assert(chains@[12] == c),
                    ChainId::OpBnb => assert(chains@[13] == c),
                }
            }
        }
        chains
    }

    /// Convert a numeric identifier to the chain it names, if any.
    pub fn from_u64(value: u64) -> (r: Option<ChainId>)
        ensures
            match r {
                Some(c) => c.id() == value,
                None => forall|c: ChainId| c.id() != value,
            },
    {
        match value {
            1 => Some(ChainId::Ethereum),
            137 => Some(ChainId::Polygon),
            42161 => Some(ChainId::Arbitrum),
            10 => Some(ChainId::Optimism),
            8453 => Some(ChainId::Base),
            56 => Some(ChainId::Bsc),
            43114 => Some(ChainId::Avalanche),
            250 => Some(ChainId::Fantom),
            59144 => Some(ChainId::Linea),
            534352 => Some(ChainId::Scroll),
            5000 => Some(ChainId::Mantle),
            324 => Some(ChainId::ZkSync),
            42220 => Some(ChainId::Celo),
            204 => Some(ChainId::OpBnb),
            _ => None,
        }
    }
}

} // verus!
