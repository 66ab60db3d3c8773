//! Two predictive scores over one set of features derived from a route and
//! its quote. Each is a weighted sum of features, kept within 0 and 100.

use vstd::prelude::*;
use crate::decimal::{clamp, div_floor, Decimal};
use crate::omniarb::data_fetcher::{QuoteInfo, QuoteSnapshot};
use crate::omniarb::matrix_parser::{RouteRecord, TokenEntry};
use crate::text::{chars_of, reads_as};

verus! {

/// The features both predictors read, each in millionths.
#[derive(Debug, Clone, Copy, PartialEq, Eq, Structural)]
pub struct ModelFeatures {
    pub liquidity_score: i128,
    pub spread_score: i128,
    pub bridge_score: i128,
    pub token_score: i128,
    pub slippage_penalty: i128,
    pub gas_efficiency: i128,
}

/// The reliability score of a bridge, in millionths: 90, 75, 65 or 50.
pub open spec fn bridge_score(bridge: Seq<char>) -> int {
    if bridge == "STARGATE"@ || bridge == "ACROSS"@ || bridge == "CCIP"@ {
        90_000_000
    } else if bridge == "HOP"@ || bridge == "SYNAPSE"@ || bridge == "LIFI"@ || bridge
        == "SOCKET"@ {
        75_000_000
    } else if bridge == "LAYERZERO"@ || bridge == "CELER"@ {
        65_000_000
    } else {
        50_000_000
    }
}

/// The quality score of a token, in millionths: 95, 90, 80, 75 or 60.
pub open spec fn token_score(token: Seq<char>) -> int {
    if token == "USDC"@ || token == "USDT"@ || token == "DAI"@ {
        95_000_000
    } else if token == "ETH"@ || token == "WETH"@ || token == "WBTC"@ {
        90_000_000
    } else if token == "MATIC"@ || token == "AVAX"@ || token == "BNB"@ || token == "OP"@
        || token == "ARB"@ {
        80_000_000
    } else if token == "LINK"@ || token == "UNI"@ || token == "AAVE"@ {
        75_000_000
    } else {
        60_000_000
    }
}

/// The spread score: twenty times the spread, at most 100.
pub open spec fn spread_score(spread: int) -> int {
    if spread * 20 > 100_000_000 {
        100_000_000
    } else {
        spread * 20
    }
}

/// The slippage penalty: fifty times the slippage.
pub open spec fn slippage_penalty(slippage: int) -> int {
    slippage * 50
}

/// Gas efficiency: `(20 - min(20, gas)) / 20 * 100`.
pub open spec fn gas_efficiency(gas: int) -> int {
    if gas > 20_000_000 {
        0
    } else {
        (20_000_000 - gas) * 5
    }
}

/// The first predictor, in millionths: liquidity 0.3, spread 0.3, bridge 0.2,
/// token 0.2; rounded down and kept within 0 and 100.
pub open spec fn tar_onnx_score(r: RouteRecord, q: QuoteSnapshot) -> int {
    clamp(
        (3 * r.liquidity_score + 3 * spread_score(q.spread_percentage) + 2 * bridge_score(
            r.bridge_protocol,
        ) + 2 * token_score(r.native_token)) / 10,
        0,
        100_000_000,
    )
}

/// The second predictor, in millionths: bridge 0.4, liquidity 0.3, 100 less
/// the slippage penalty 0.2, gas efficiency 0.1; rounded down and kept within
/// 0 and 100.
pub open spec fn flanker_score(r: RouteRecord, q: QuoteSnapshot) -> int {
    clamp(
        (4 * bridge_score(r.bridge_protocol) + 3 * r.liquidity_score + 2 * (100_000_000
            - slippage_penalty(q.slippage_estimate)) + gas_efficiency(q.gas_cost_usd)) / 10,
        0,
        100_000_000,
    )
}

/// Both predictors give a score between 0 and 100 for every route and quote.
pub proof fn lemma_model_scores_bounds(r: RouteRecord, q: QuoteSnapshot)
    ensures
        0 <= tar_onnx_score(r, q) <= 100_000_000,
        0 <= flanker_score(r, q) <= 100_000_000,
{
}

/// The reliability score of a bridge.
pub fn get_bridge_score(bridge: &str) -> (s: Decimal)
    ensures
        s@ == bridge_score(bridge@),
{
    let t: Vec<char> = chars_of(bridge);
    let c: &[char] = t.as_slice();
    if reads_as(c, "STARGATE") || reads_as(c, "ACROSS") || reads_as(c, "CCIP") {
        Decimal { micros: 90_000_000 }
    } else if reads_as(c, "HOP") || reads_as(c, "SYNAPSE") || reads_as(c, "LIFI") || reads_as(
        c,
        "SOCKET",
    ) {
        Decimal { micros: 75_000_000 }
    } else if reads_as(c, "LAYERZERO") || reads_as(c, "CELER") {
        Decimal { micros: 65_000_000 }
    } else {
        Decimal { micros: 50_000_000 }
    }
}

/// The quality score of a token.
pub fn get_token_score(token: &str) -> (s: Decimal)
    ensures
        s@ == token_score(token@),
{
    let t: Vec<char> = chars_of(token);
    let c: &[char] = t.as_slice();
    if reads_as(c, "USDC") || reads_as(c, "USDT") || reads_as(c, "DAI") {
        Decimal { micros: 95_000_000 }
    } else if reads_as(c, "ETH") || reads_as(c, "WETH") || reads_as(c, "WBTC") {
        Decimal { micros: 90_000_000 }
    } else if reads_as(c, "MATIC") || reads_as(c, "AVAX") || reads_as(c, "BNB") || reads_as(
        c,
        "OP",
    ) || reads_as(c, "ARB") {
        Decimal { micros: 80_000_000 }
    } else if reads_as(c, "LINK") || reads_as(c, "UNI") || reads_as(c, "AAVE") {
        Decimal { micros: 75_000_000 }
    } else {
        Decimal { micros: 60_000_000 }
    }
}

/// The features of a route under a quote.
pub fn extract_features(entry: &TokenEntry, quote: &QuoteInfo) -> (f: ModelFeatures)
    ensures
        f.liquidity_score == entry@.liquidity_score,
        f.spread_score == spread_score(quote@.spread_percentage),
        f.bridge_score == bridge_score(entry@.bridge_protocol),
        f.token_score == token_score(entry@.native_token),
        f.slippage_penalty == slippage_penalty(quote@.slippage_estimate),
        f.gas_efficiency == gas_efficiency(quote@.gas_cost_usd),
{
    let spread20: i128 = quote.spread_percentage.micros as i128 * 20;
    let spread_score: i128 = if spread20 > 100_000_000 {
        100_000_000
    } else {
        spread20
    };
    let gas: i128 = quote.gas_cost_usd.micros as i128;
    let gas_efficiency: i128 = if gas > 20_000_000 {
        0
    } else {
        (20_000_000 - gas) * 5
    };
    ModelFeatures {
        liquidity_score: entry.liquidity_score.micros as i128,
        spread_score,
        bridge_score: get_bridge_score(entry.bridge_protocol.as_str()).micros as i128,
        token_score: get_token_score(entry.native_token.as_str()).micros as i128,
        slippage_penalty: quote.slippage_estimate.micros as i128 * 50,
        gas_efficiency,
    }
}

/// `x` kept within 0 and 100, as a decimal.
fn clamp_score(x: i128) -> (s: Decimal)
    ensures
        s@ == clamp(x as int, 0, 100_000_000),
{
    if x < 0 {
        Decimal { micros: 0 }
    } else if x > 100_000_000 {
        Decimal { micros: 100_000_000 }
    } else {
        Decimal { micros: x as i64 }
    }
}

/// The first predictor's score for a route under a quote: between 0 and 100.
pub fn run_tar_onnx(entry: &TokenEntry, quote: &QuoteInfo) -> (s: Decimal)
    ensures
        s@ == tar_onnx_score(entry@, quote@),
        0 <= s@ <= 100_000_000,
{
    let f = extract_features(entry, quote);
    let sum: i128 = 3 * f.liquidity_score + 3 * f.spread_score + 2 * f.bridge_score + 2
        * f.token_score;
    clamp_score(div_floor(sum, 10))
}

/// The second predictor's score for a route under a quote: between 0 and 100.
pub fn run_flanker(entry: &TokenEntry, quote: &QuoteInfo) -> (s: Decimal)
    ensures
        s@ == flanker_score(entry@, quote@),
        0 <= s@ <= 100_000_000,
{
    let f = extract_features(entry, quote);
    let sum: i128 = 4 * f.bridge_score + 3 * f.liquidity_score + 2 * (100_000_000
        - f.slippage_penalty) + f.gas_efficiency;
    clamp_score(div_floor(sum, 10))
}

/// Loading a trained model from a file is not offered: every call fails.
pub fn load_onnx_model(_model_path: &str) -> (r: Result<(), String>)
    ensures
        r is Err,
        r->Err_0@ == "ONNX integration not implemented yet"@,
{
    Err("ONNX integration not implemented yet".to_owned())
}

} // verus!
