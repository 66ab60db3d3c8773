//! The TAR score of a route: token quality, arbitrage efficiency and risk,
//! each with its own range, summed and capped at 100.

use vstd::prelude::*;
use crate::decimal::{clamp, div_floor, Decimal};
use crate::omniarb::data_fetcher::{QuoteInfo, QuoteSnapshot};
use crate::omniarb::matrix_parser::{RouteRecord, TokenEntry};
use crate::text::{chars_of, reads_as};

verus! {

/// Whether `token` is of the first tier.
pub open spec fn is_tier1_token(token: Seq<char>) -> bool {
    token == "USDC"@ || token == "USDT"@ || token == "DAI"@ || token == "ETH"@ || token
        == "WETH"@ || token == "WBTC"@
}

/// Whether `token` is of the second tier.
pub open spec fn is_tier2_token(token: Seq<char>) -> bool {
    token == "MATIC"@ || token == "AVAX"@ || token == "BNB"@ || token == "OP"@ || token
        == "ARB"@ || token == "LINK"@
}

/// Whether `bridge` is of the first tier.
pub open spec fn is_tier1_bridge(bridge: Seq<char>) -> bool {
    bridge == "STARGATE"@ || bridge == "ACROSS"@ || bridge == "CCIP"@ || bridge == "LIFI"@
}

/// Whether `bridge` is of the second tier.
pub open spec fn is_tier2_bridge(bridge: Seq<char>) -> bool {
    bridge == "HOP"@ || bridge == "SYNAPSE"@ || bridge == "SOCKET"@ || bridge == "LAYERZERO"@
}

/// The points a token has from its tier, in millionths: 20, 12 or 5.
pub open spec fn token_tier_points(token: Seq<char>) -> int {
    if is_tier1_token(token) {
        20_000_000
    } else if is_tier2_token(token) {
        12_000_000
    } else {
        5_000_000
    }
}

/// Token quality, in millionths: the tier's points and `liquidity / 100 * 15`
/// (rounded down), kept within 0 and 35.
pub open spec fn token_quality(token: Seq<char>, liquidity_score: int) -> int {
    clamp(token_tier_points(token) + (liquidity_score * 15) / 100, 0, 35_000_000)
}

/// The points for a fee tier: 15 below 0.15, 10 below 0.30, 5 below 0.50.
pub open spec fn fee_points(fee_tier: int) -> int {
    if fee_tier < 150_000 {
        15_000_000
    } else if fee_tier < 300_000 {
        10_000_000
    } else if fee_tier < 500_000 {
        5_000_000
    } else {
        0
    }
}

/// The points for a spread: 20 above 2.0, 15 above 1.0, 10 above 0.5, 5 above 0.2.
pub open spec fn spread_points(spread: int) -> int {
    if spread > 2_000_000 {
        20_000_000
    } else if spread > 1_000_000 {
        15_000_000
    } else if spread > 500_000 {
        10_000_000
    } else if spread > 200_000 {
        5_000_000
    } else {
        0
    }
}

/// Arbitrage efficiency, in millionths.
pub open spec fn arbitrage_efficiency(fee_tier: int, spread: int) -> int {
    fee_points(fee_tier) + spread_points(spread)
}

/// The points a bridge has from its tier: 15, 10 or 5.
pub open spec fn bridge_tier_points(bridge: Seq<char>) -> int {
    if is_tier1_bridge(bridge) {
        15_000_000
    } else if is_tier2_bridge(bridge) {
        10_000_000
    } else {
        5_000_000
    }
}

/// The points for a slippage: 15 below 0.5, 10 below 1.0, 5 below 2.0.
pub open spec fn slippage_points(slippage: int) -> int {
    if slippage < 500_000 {
        15_000_000
    } else if slippage < 1_000_000 {
        10_000_000
    } else if slippage < 2_000_000 {
        5_000_000
    } else {
        0
    }
}

/// The risk score, in millionths.
pub open spec fn risk_score(bridge: Seq<char>, slippage: int) -> int {
    bridge_tier_points(bridge) + slippage_points(slippage)
}

/// The sum of the three parts, in millionths.
pub open spec fn tar_sum(r: RouteRecord, q: QuoteSnapshot) -> int {
    token_quality(r.native_token, r.liquidity_score) + arbitrage_efficiency(
        r.fee_tier,
        q.spread_percentage,
    ) + risk_score(r.bridge_protocol, q.slippage_estimate)
}

/// The TAR score of a route under a quote, in millionths: the sum of the
/// three parts, capped at 100.
pub open spec fn tar_score(r: RouteRecord, q: QuoteSnapshot) -> int {
    if tar_sum(r, q) > 100_000_000 {
        100_000_000
    } else {
        tar_sum(r, q)
    }
}

/// The TAR score of every route under every quote lies between 0 and 100, and
/// the cap at 100 never changes the sum of the three parts.
pub proof fn lemma_tar_score_bounds(r: RouteRecord, q: QuoteSnapshot)
    ensures
        0 <= tar_score(r, q) <= 100_000_000,
        tar_score(r, q) == tar_sum(r, q),
        0 <= token_quality(r.native_token, r.liquidity_score) <= 35_000_000,
        0 <= arbitrage_efficiency(r.fee_tier, q.spread_percentage) <= 35_000_000,
        5_000_000 <= risk_score(r.bridge_protocol, q.slippage_estimate) <= 30_000_000,
{
}

/// The three scores of a route depend on nothing but what the route and the
/// quote hold: routes and quotes with equal views have equal scores.
pub proof fn lemma_scores_are_functions_of_views(
    r1: RouteRecord,
    q1: QuoteSnapshot,
    r2: RouteRecord,
    q2: QuoteSnapshot,
)
    requires
        r1 == r2,
        q1 == q2,
    ensures
        tar_score(r1, q1) == tar_score(r2, q2),
        crate::omniarb::model_bridge::tar_onnx_score(r1, q1)
            == crate::omniarb::model_bridge::tar_onnx_score(r2, q2),
        crate::omniarb::model_bridge::flanker_score(r1, q1)
            == crate::omniarb::model_bridge::flanker_score(r2, q2),
{
}

/// Token quality: between 0 and 35.
pub fn calculate_token_quality(token: &str, liquidity_score: Decimal) -> (s: Decimal)
    ensures
        s@ == token_quality(token@, liquidity_score@),
        0 <= s@ <= 35_000_000,
{
    let t: Vec<char> = chars_of(token);
    let c: &[char] = t.as_slice();
    let tier: i128 = if reads_as(c, "USDC") || reads_as(c, "USDT") || reads_as(c, "DAI")
        || reads_as(c, "ETH") || reads_as(c, "WETH") || reads_as(c, "WBTC") {
        20_000_000
    } else if reads_as(c, "MATIC") || reads_as(c, "AVAX") || reads_as(c, "BNB") || reads_as(
        c,
        "OP",
    ) || reads_as(c, "ARB") || reads_as(c, "LINK") {
        12_000_000
    } else {
        5_000_000
    };
    let share: i128 = div_floor(liquidity_score.micros as i128 * 15, 100);
    let sum: i128 = tier + share;
    if sum < 0 {
        Decimal { micros: 0 }
    } else if sum > 35_000_000 {
        Decimal { micros: 35_000_000 }
    } else {
        Decimal { micros: sum as i64 }
    }
}

/// Arbitrage efficiency: between 0 and 35.
pub fn calculate_arbitrage_efficiency(fee_tier: Decimal, spread_percentage: Decimal) -> (s:
    Decimal)
    ensures
        s@ == arbitrage_efficiency(fee_tier@, spread_percentage@),
        0 <= s@ <= 35_000_000,
{
    let mut score: i64 = 0;
    if fee_tier.micros < 150_000 {
        score = score + 15_000_000;
    } else if fee_tier.micros < 300_000 {
        score = score + 10_000_000;
    } else if fee_tier.micros < 500_000 {
        score = score + 5_000_000;
    }
    if spread_percentage.micros > 2_000_000 {
        score = score + 20_000_000;
    } else if spread_percentage.micros > 1_000_000 {
        score = score + 15_000_000;
    } else if spread_percentage.micros > 500_000 {
        score = score + 10_000_000;
    } else if spread_percentage.micros > 200_000 {
        score = score + 5_000_000;
    }
    Decimal { micros: score }
}

/// The risk score: between 5 and 30.
pub fn calculate_risk_score(bridge: &str, slippage: Decimal) -> (s: Decimal)
    ensures
        s@ == risk_score(bridge@, slippage@),
        5_000_000 <= s@ <= 30_000_000,
{
    let t: Vec<char> = chars_of(bridge);
    let c: &[char] = t.as_slice();
    let mut score: i64 = 0;
    if reads_as(c, "STARGATE") || reads_as(c, "ACROSS") || reads_as(c, "CCIP") || reads_as(
        c,
        "LIFI",
    ) {
        score = score + 15_000_000;
    } else if reads_as(c, "HOP") || reads_as(c, "SYNAPSE") || reads_as(c, "SOCKET") || reads_as(
        c,
        "LAYERZERO",
    ) {
        score = score + 10_000_000;
    } else {
        score = score + 5_000_000;
    }
    if slippage.micros < 500_000 {
        score = score + 15_000_000;
    } else if slippage.micros < 1_000_000 {
        score = score + 10_000_000;
    } else if slippage.micros < 2_000_000 {
        score = score + 5_000_000;
    }
    Decimal { micros: score }
}

/// The TAR score of a route under a quote: between 0 and 100.
pub fn calculate_tar_score(entry: &TokenEntry, quote: &QuoteInfo) -> (s: Decimal)
    ensures
        s@ == tar_score(entry@, quote@),
        0 <= s@ <= 100_000_000,
{
    let token_score = calculate_token_quality(entry.native_token.as_str(), entry.liquidity_score);
    let arb_score = calculate_arbitrage_efficiency(entry.fee_tier, quote.spread_percentage);
    let risk = calculate_risk_score(entry.bridge_protocol.as_str(), quote.slippage_estimate);
    let score: i64 = token_score.micros + arb_score.micros + risk.micros;
    if score > 100_000_000 {
        Decimal { micros: 100_000_000 }
    } else {
        Decimal { micros: score }
    }
}

} // verus!
