//! Market quotes for routes. The quotes made here are synthetic: each is a
//! function of the route alone.

use vstd::prelude::*;
use crate::decimal::{div_floor, saturate, Decimal};
use crate::omniarb::matrix_parser::{RouteRecord, TokenEntry};
use crate::text::{chars_of, reads_as};

verus! {

/// A quote for one route.
#[derive(Debug, Clone, Copy, PartialEq, Eq, Structural)]
pub struct QuoteInfo {
    /// The spread, in percent.
    pub spread_percentage: Decimal,
    /// The estimated slippage, in percent.
    pub slippage_estimate: Decimal,
    /// The gas cost, in US dollars.
    pub gas_cost_usd: Decimal,
    /// The liquidity available, in US dollars.
    pub available_liquidity: Decimal,
}

/// What a `QuoteInfo` holds, in millionths.
pub struct QuoteSnapshot {
    pub spread_percentage: int,
    pub slippage_estimate: int,
    pub gas_cost_usd: int,
    pub available_liquidity: int,
}

impl View for QuoteInfo {
    type V = QuoteSnapshot;

    open spec fn view(&self) -> QuoteSnapshot {
        QuoteSnapshot {
            spread_percentage: self.spread_percentage@,
            slippage_estimate: self.slippage_estimate@,
            gas_cost_usd: self.gas_cost_usd@,
            available_liquidity: self.available_liquidity@,
        }
    }
}

impl QuoteSnapshot {
    /// Whether no field of the quote is negative.
    pub open spec fn well_formed(self) -> bool {
        &&& self.spread_percentage >= 0
        &&& self.slippage_estimate >= 0
        &&& self.gas_cost_usd >= 0
        &&& self.available_liquidity >= 0
    }
}

/// Whether `token` is a stablecoin.
pub open spec fn is_stable_token(token: Seq<char>) -> bool {
    token == "USDC"@ || token == "USDT"@ || token == "DAI"@
}

/// Whether `token` is a major token of moderate volatility.
pub open spec fn is_low_vol_token(token: Seq<char>) -> bool {
    token == "ETH"@ || token == "WETH"@ || token == "WBTC"@
}

/// The volatility factor of a token, in millionths: 1.0 for stablecoins, 1.1
/// for majors, 1.3 for all others.
pub open spec fn token_volatility(token: Seq<char>) -> int {
    if is_stable_token(token) {
        1_000_000
    } else if is_low_vol_token(token) {
        1_100_000
    } else {
        1_300_000
    }
}

/// Whether `bridge` is a premium bridge.
pub open spec fn is_efficient_bridge(bridge: Seq<char>) -> bool {
    bridge == "STARGATE"@ || bridge == "ACROSS"@ || bridge == "CCIP"@
}

/// Whether `bridge` is a standard bridge.
pub open spec fn is_standard_bridge(bridge: Seq<char>) -> bool {
    bridge == "HOP"@ || bridge == "SYNAPSE"@ || bridge == "LIFI"@
}

/// The efficiency factor of a bridge, in millionths: 1.15 for premium bridges,
/// 1.0 for standard ones, 0.9 for all others.
pub open spec fn bridge_efficiency(bridge: Seq<char>) -> int {
    if is_efficient_bridge(bridge) {
        1_150_000
    } else if is_standard_bridge(bridge) {
        1_000_000
    } else {
        900_000
    }
}

/// The gas cost on a destination chain in millionths of a dollar; five dollars
/// for a chain that is not listed.
pub open spec fn gas_cost(chain_id: u64) -> int {
    if chain_id == 1 {
        15_000_000
    } else if chain_id == 137 {
        500_000
    } else if chain_id == 42161 {
        800_000
    } else if chain_id == 10 {
        1_000_000
    } else if chain_id == 8453 {
        500_000
    } else if chain_id == 56 {
        300_000
    } else if chain_id == 43114 {
        2_000_000
    } else {
        5_000_000
    }
}

/// The synthetic spread of a route, in millionths of a percent, before it is
/// brought into range: `(liquidity / 100 * 2 - fee)` times the token's and the
/// bridge's factors, rounded down, and no less than zero.
pub open spec fn spread_of(r: RouteRecord) -> int {
    let raw = ((2 * r.liquidity_score - 100 * r.fee_tier) * token_volatility(r.native_token)
        * bridge_efficiency(r.bridge_protocol)) / 100_000_000_000_000;
    if raw < 0 {
        0
    } else {
        raw
    }
}

/// The synthetic slippage of a route: `(100 - liquidity) / 100 * 2`, rounded down.
pub open spec fn slippage_of(r: RouteRecord) -> int {
    (100_000_000 - r.liquidity_score) / 50
}

/// The synthetic quote of a route.
pub open spec fn quote_of(r: RouteRecord) -> QuoteSnapshot {
    QuoteSnapshot {
        spread_percentage: saturate(spread_of(r)),
        slippage_estimate: slippage_of(r),
        gas_cost_usd: gas_cost(r.chain_dest),
        available_liquidity: saturate(r.liquidity_score * 10_000),
    }
}

/// The volatility factor of a token.
pub fn get_token_volatility(token: &str) -> (f: Decimal)
    ensures
        f@ == token_volatility(token@),
{
    let t: Vec<char> = chars_of(token);
    let s: &[char] = t.as_slice();
    if reads_as(s, "USDC") || reads_as(s, "USDT") || reads_as(s, "DAI") {
        Decimal { micros: 1_000_000 }
    } else if reads_as(s, "ETH") || reads_as(s, "WETH") || reads_as(s, "WBTC") {
        Decimal { micros: 1_100_000 }
    } else {
        Decimal { micros: 1_300_000 }
    }
}

/// The efficiency factor of a bridge.
pub fn get_bridge_efficiency(bridge: &str) -> (f: Decimal)
    ensures
        f@ == bridge_efficiency(bridge@),
{
    let t: Vec<char> = chars_of(bridge);
    let s: &[char] = t.as_slice();
    if reads_as(s, "STARGATE") || reads_as(s, "ACROSS") || reads_as(s, "CCIP") {
        Decimal { micros: 1_150_000 }
    } else if reads_as(s, "HOP") || reads_as(s, "SYNAPSE") || reads_as(s, "LIFI") {
        Decimal { micros: 1_000_000 }
    } else {
        Decimal { micros: 900_000 }
    }
}

/// The gas cost on a destination chain, in US dollars.
pub fn estimate_gas_cost(chain_id: u64) -> (c: Decimal)
    ensures
        c@ == gas_cost(chain_id),
{
    if chain_id == 1 {
        Decimal { micros: 15_000_000 }
    } else if chain_id == 137 {
        Decimal { micros: 500_000 }
    } else if chain_id == 42161 {
        Decimal { micros: 800_000 }
    } else if chain_id == 10 {
        Decimal { micros: 1_000_000 }
    } else if chain_id == 8453 {
        Decimal { micros: 500_000 }
    } else if chain_id == 56 {
        Decimal { micros: 300_000 }
    } else if chain_id == 43114 {
        Decimal { micros: 2_000_000 }
    } else {
        Decimal { micros: 5_000_000 }
    }
}

/// The synthetic quote of a route. For a liquidity score between 0 and 100 no
/// field of it is negative.
pub fn simulate_bridge_quote(entry: &TokenEntry) -> (q: QuoteInfo)
    ensures
        q@ == quote_of(entry@),
        0 <= entry@.liquidity_score <= 100_000_000 ==> q@.well_formed(),
{
    let liq: i128 = entry.liquidity_score.micros as i128;
    let fee: i128 = entry.fee_tier.micros as i128;
    let tf: i128 = get_token_volatility(entry.native_token.as_str()).micros as i128;
    let bf: i128 = get_bridge_efficiency(entry.bridge_protocol.as_str()).micros as i128;
    let base: i128 = 2 * liq - 100 * fee;
    assert(-0x66_0000_0000_0000_0000 <= base <= 0x66_0000_0000_0000_0000);
    assert(-0x66_0000_0000_0000_0000 * 1_300_000 <= base * tf <= 0x66_0000_0000_0000_0000
        * 1_300_000) by (nonlinear_arith)
        requires
            -0x66_0000_0000_0000_0000 <= base <= 0x66_0000_0000_0000_0000,
            1_000_000 <= tf <= 1_300_000,
    ;
    let scaled: i128 = base * tf;
    assert(-0x66_0000_0000_0000_0000 * 1_300_000 * 1_150_000 <= scaled * bf
        <= 0x66_0000_0000_0000_0000 * 1_300_000 * 1_150_000) by (nonlinear_arith)
        requires
            -0x66_0000_0000_0000_0000 * 1_300_000 <= scaled <= 0x66_0000_0000_0000_0000
                * 1_300_000,
            900_000 <= bf <= 1_150_000,
    ;
    let product: i128 = scaled * bf;
    let raw: i128 = div_floor(product, 100_000_000_000_000);
    let spread: i128 = if raw < 0 {
        0
    } else {
        raw
    };
    let slippage: i128 = div_floor(100_000_000 - liq, 50);
    let available: i128 = liq * 10_000;
    let q = QuoteInfo {
        spread_percentage: Decimal::saturating_from(spread),
        slippage_estimate: Decimal { micros: slippage as i64 },
        gas_cost_usd: estimate_gas_cost(entry.chain_dest),
        available_liquidity: Decimal::saturating_from(available),
    };
    q
}

/// The synthetic quotes of `token_matrix`, one for each route, in order.
pub fn fetch_live_quotes(token_matrix: &Vec<TokenEntry>) -> (quotes: Vec<QuoteInfo>)
    ensures
        quotes@.len() == token_matrix@.len(),
        forall|i: int| 0 <= i < quotes@.len() ==> (#[trigger] quotes@[i])@ == quote_of(
            token_matrix@[i]@,
        ),
{
    let mut quotes: Vec<QuoteInfo> = Vec::new();
    let mut i: usize = 0;
    while i < token_matrix.len()
        invariant
            i <= token_matrix.len(),
            quotes@.len() == i,
            forall|j: int| 0 <= j < i ==> (#[trigger] quotes@[j])@ == quote_of(token_matrix@[j]@),
        decreases token_matrix.len() - i,
    {
        let q = simulate_bridge_quote(&token_matrix[i]);
        quotes.push(q);
        i = i + 1;
    }
    quotes
}

} // verus!
