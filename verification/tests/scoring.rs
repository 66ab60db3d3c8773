use titan_core::decimal::Decimal;
use titan_core::omniarb::data_fetcher::{
    estimate_gas_cost, fetch_live_quotes, get_bridge_efficiency, get_token_volatility,
    simulate_bridge_quote, QuoteInfo,
};
use titan_core::omniarb::matrix_parser::TokenEntry;
use titan_core::omniarb::model_bridge::{
    extract_features, get_bridge_score, get_token_score, load_onnx_model, run_flanker,
    run_tar_onnx,
};
use titan_core::omniarb::tar_scorer::{
    calculate_arbitrage_efficiency, calculate_risk_score, calculate_tar_score,
    calculate_token_quality,
};

fn dec(s: &str) -> Decimal {
    Decimal::parse(s).unwrap()
}

fn entry(token: &str, bridge: &str, dest: u64, liquidity: &str, fee: &str) -> TokenEntry {
    TokenEntry {
        chain_origin: 1,
        chain_dest: dest,
        native_token: token.to_string(),
        dex_origin: "UNISWAP_V3".to_string(),
        dex_dest: "QUICKSWAP".to_string(),
        bridge_protocol: bridge.to_string(),
        liquidity_score: dec(liquidity),
        fee_tier: dec(fee),
    }
}

fn quote(spread: &str, slippage: &str, gas: &str, liquidity: &str) -> QuoteInfo {
    QuoteInfo {
        spread_percentage: dec(spread),
        slippage_estimate: dec(slippage),
        gas_cost_usd: dec(gas),
        available_liquidity: dec(liquidity),
    }
}

#[test]
fn test_fetch_quotes() {
    let entries = vec![TokenEntry {
        chain_origin: 1,
        chain_dest: 137,
        native_token: "USDC".to_string(),
        dex_origin: "UNISWAP_V3".to_string(),
        dex_dest: "QUICKSWAP".to_string(),
        bridge_protocol: "STARGATE".to_string(),
        liquidity_score: dec("95.0"),
        fee_tier: dec("0.3"),
    }];

    let quotes = fetch_live_quotes(&entries);
    assert_eq!(quotes.len(), 1);
    assert!(quotes[0].spread_percentage >= dec("0.0"));
}

#[test]
fn test_tar_score_calculation() {
    let entry = TokenEntry {
        chain_origin: 1,
        chain_dest: 137,
        native_token: "USDC".to_string(),
        dex_origin: "UNISWAP_V3".to_string(),
        dex_dest: "QUICKSWAP".to_string(),
        bridge_protocol: "STARGATE".to_string(),
        liquidity_score: dec("95.0"),
        fee_tier: dec("0.1"),
    };

    let quote = QuoteInfo {
        spread_percentage: dec("1.5"),
        slippage_estimate: dec("0.3"),
        gas_cost_usd: dec("5.0"),
        available_liquidity: dec("1000000.0"),
    };

    let score = calculate_tar_score(&entry, &quote);
    assert!(score > dec("70.0"));
    assert!(score <= dec("100.0"));
}

#[test]
fn test_tar_onnx() {
    let entry = TokenEntry {
        chain_origin: 1,
        chain_dest: 137,
        native_token: "USDC".to_string(),
        dex_origin: "UNISWAP_V3".to_string(),
        dex_dest: "QUICKSWAP".to_string(),
        bridge_protocol: "STARGATE".to_string(),
        liquidity_score: dec("95.0"),
        fee_tier: dec("0.3"),
    };

    let quote = QuoteInfo {
        spread_percentage: dec("1.5"),
        slippage_estimate: dec("0.3"),
        gas_cost_usd: dec("5.0"),
        available_liquidity: dec("1000000.0"),
    };

    let prediction = run_tar_onnx(&entry, &quote);
    assert!(prediction >= dec("0.0") && prediction <= dec("100.0"));
}

#[test]
fn test_flanker() {
    let entry = TokenEntry {
        chain_origin: 1,
        chain_dest: 137,
        native_token: "ETH".to_string(),
        dex_origin: "UNISWAP_V3".to_string(),
        dex_dest: "QUICKSWAP".to_string(),
        bridge_protocol: "ACROSS".to_string(),
        liquidity_score: dec("88.0"),
        fee_tier: dec("0.15"),
    };

    let quote = QuoteInfo {
        spread_percentage: dec("1.2"),
        slippage_estimate: dec("0.5"),
        gas_cost_usd: dec("8.0"),
        available_liquidity: dec("500000.0"),
    };

    let prediction = run_flanker(&entry, &quote);
    assert!(prediction >= dec("0.0") && prediction <= dec("100.0"));
}

#[test]
fn tar_score_of_the_worked_example() {
    let e = entry("USDC", "STARGATE", 137, "95.0", "0.1");
    let q = quote("1.5", "0.3", "5.0", "1000000.0");
    assert_eq!(calculate_token_quality("USDC", dec("95.0")), dec("34.25"));
    assert_eq!(calculate_arbitrage_efficiency(dec("0.1"), dec("1.5")), dec("30"));
    assert_eq!(calculate_risk_score("STARGATE", dec("0.3")), dec("30"));
    assert_eq!(calculate_tar_score(&e, &q), dec("94.25"));
}

#[test]
fn token_quality_by_tier_and_within_its_range() {
    assert_eq!(calculate_token_quality("WBTC", dec("0")), dec("20"));
    assert_eq!(calculate_token_quality("LINK", dec("0")), dec("12"));
    assert_eq!(calculate_token_quality("DOGE", dec("0")), dec("5"));
    assert_eq!(calculate_token_quality("usdc", dec("0")), dec("5"));
    assert_eq!(calculate_token_quality("MATIC", dec("50")), dec("19.5"));
    assert_eq!(calculate_token_quality("DAI", dec("100")), dec("35"));
    assert_eq!(calculate_token_quality("DAI", dec("200")), dec("35"));
    assert_eq!(calculate_token_quality("DOGE", dec("-1000")), dec("0"));
    assert_eq!(calculate_token_quality("DOGE", dec("0.000001")), dec("5"));
    assert_eq!(
        calculate_token_quality("DOGE", Decimal { micros: -1 }),
        dec("4.999999")
    );
}

#[test]
fn fee_and_spread_ladders_are_strict() {
    let zero = dec("0");
    assert_eq!(calculate_arbitrage_efficiency(dec("0.149999"), zero), dec("15"));
    assert_eq!(calculate_arbitrage_efficiency(dec("0.15"), zero), dec("10"));
    assert_eq!(calculate_arbitrage_efficiency(dec("0.299999"), zero), dec("10"));
    assert_eq!(calculate_arbitrage_efficiency(dec("0.30"), zero), dec("5"));
    assert_eq!(calculate_arbitrage_efficiency(dec("0.499999"), zero), dec("5"));
    assert_eq!(calculate_arbitrage_efficiency(dec("0.50"), zero), dec("0"));
    let high = dec("9");
    assert_eq!(calculate_arbitrage_efficiency(high, dec("2.000001")), dec("20"));
    assert_eq!(calculate_arbitrage_efficiency(high, dec("2.0")), dec("15"));
    assert_eq!(calculate_arbitrage_efficiency(high, dec("1.000001")), dec("15"));
    assert_eq!(calculate_arbitrage_efficiency(high, dec("1.0")), dec("10"));
    assert_eq!(calculate_arbitrage_efficiency(high, dec("0.500001")), dec("10"));
    assert_eq!(calculate_arbitrage_efficiency(high, dec("0.5")), dec("5"));
    assert_eq!(calculate_arbitrage_efficiency(high, dec("0.200001")), dec("5"));
    assert_eq!(calculate_arbitrage_efficiency(high, dec("0.2")), dec("0"));
    assert_eq!(calculate_arbitrage_efficiency(dec("-1"), dec("3")), dec("35"));
}

#[test]
fn risk_by_bridge_tier_and_slippage() {
    assert_eq!(calculate_risk_score("LIFI", dec("5")), dec("15"));
    assert_eq!(calculate_risk_score("CCIP", dec("5")), dec("15"));
    assert_eq!(calculate_risk_score("SOCKET", dec("5")), dec("10"));
    assert_eq!(calculate_risk_score("LAYERZERO", dec("5")), dec("10"));
    assert_eq!(calculate_risk_score("CELER", dec("5")), dec("5"));
    assert_eq!(calculate_risk_score("X", dec("0.499999")), dec("20"));
    assert_eq!(calculate_risk_score("X", dec("0.5")), dec("15"));
    assert_eq!(calculate_risk_score("X", dec("0.999999")), dec("15"));
    assert_eq!(calculate_risk_score("X", dec("1.0")), dec("10"));
    assert_eq!(calculate_risk_score("X", dec("1.999999")), dec("10"));
    assert_eq!(calculate_risk_score("X", dec("2.0")), dec("5"));
    assert_eq!(calculate_risk_score("HOP", dec("-3")), dec("25"));
}

#[test]
fn scores_stay_within_0_and_100_at_the_ends_of_the_range() {
    let tokens = ["USDC", "ETH", "ARB", "UNI", "XYZ"];
    let bridges = ["STARGATE", "HOP", "CELER", "XYZ"];
    let values = [
        Decimal { micros: i64::MIN },
        dec("-1000"),
        dec("0"),
        dec("0.4"),
        dec("100"),
        Decimal { micros: i64::MAX },
    ];
    let lo = dec("0");
    let hi = dec("100");
    for t in tokens {
        for b in bridges {
            for liq in values {
                for x in values {
                    let e = TokenEntry {
                        chain_origin: 1,
                        chain_dest: 10,
                        native_token: t.to_string(),
                        dex_origin: String::new(),
                        dex_dest: String::new(),
                        bridge_protocol: b.to_string(),
                        liquidity_score: liq,
                        fee_tier: x,
                    };
                    let q = QuoteInfo {
                        spread_percentage: x,
                        slippage_estimate: x,
                        gas_cost_usd: x,
                        available_liquidity: x,
                    };
                    for s in [calculate_tar_score(&e, &q), run_tar_onnx(&e, &q), run_flanker(&e, &q)] {
                        assert!(lo <= s && s <= hi);
                    }
                    let own = simulate_bridge_quote(&e);
                    for s in [
                        calculate_tar_score(&e, &own),
                        run_tar_onnx(&e, &own),
                        run_flanker(&e, &own),
                    ] {
                        assert!(lo <= s && s <= hi);
                    }
                }
            }
        }
    }
}

#[test]
fn the_highest_tar_score_is_100() {
    let e = entry("USDC", "STARGATE", 137, "100", "0.1");
    let q = quote("2.5", "0.1", "1", "1");
    assert_eq!(calculate_tar_score(&e, &q), dec("100"));
    let e = entry("XYZ", "XYZ", 137, "0", "0.9");
    let q = quote("0.1", "2.5", "1", "1");
    assert_eq!(calculate_tar_score(&e, &q), dec("10"));
}

#[test]
fn scoring_twice_gives_the_same_scores() {
    let e = entry("ETH", "ACROSS", 10, "88.0", "0.15");
    let q = simulate_bridge_quote(&e);
    let again = simulate_bridge_quote(&e.duplicate());
    assert_eq!(q, again);
    assert_eq!(calculate_tar_score(&e, &q), calculate_tar_score(&e, &q));
    assert_eq!(run_tar_onnx(&e, &q), run_tar_onnx(&e.duplicate(), &again));
    assert_eq!(run_flanker(&e, &q), run_flanker(&e.duplicate(), &again));
}

#[test]
fn synthetic_quote_of_a_stablecoin_on_a_premium_bridge() {
    let q = simulate_bridge_quote(&entry("USDC", "STARGATE", 137, "95.0", "0.3"));
    assert_eq!(q.spread_percentage, dec("1.84"));
    assert_eq!(q.slippage_estimate, dec("0.1"));
    assert_eq!(q.gas_cost_usd, dec("0.5"));
    assert_eq!(q.available_liquidity, dec("950000"));
}

#[test]
fn synthetic_quote_factors() {
    let q = simulate_bridge_quote(&entry("ETH", "HOP", 1, "80", "0.1"));
    assert_eq!(q.spread_percentage, dec("1.65"));
    assert_eq!(q.slippage_estimate, dec("0.4"));
    assert_eq!(q.gas_cost_usd, dec("15"));
    let q = simulate_bridge_quote(&entry("PEPE", "CELER", 999, "50", "0.2"));
    assert_eq!(q.spread_percentage, dec("0.936"));
    assert_eq!(q.slippage_estimate, dec("1"));
    assert_eq!(q.gas_cost_usd, dec("5"));
    assert_eq!(q.available_liquidity, dec("500000"));
}

#[test]
fn synthetic_spread_is_never_negative() {
    let q = simulate_bridge_quote(&entry("USDC", "HOP", 137, "10", "0.5"));
    assert_eq!(q.spread_percentage, dec("0"));
    let q = simulate_bridge_quote(&entry("USDC", "HOP", 137, "25", "0.5"));
    assert_eq!(q.spread_percentage, dec("0"));
    let q = simulate_bridge_quote(&entry("USDC", "HOP", 137, "25.00005", "0.5"));
    assert_eq!(q.spread_percentage, dec("0.000001"));
}

#[test]
fn synthetic_quote_outside_the_intended_range() {
    let q = simulate_bridge_quote(&entry("USDC", "HOP", 137, "150", "0"));
    assert_eq!(q.slippage_estimate, dec("-1"));
    let e = TokenEntry {
        liquidity_score: Decimal { micros: i64::MAX },
        fee_tier: Decimal { micros: i64::MIN },
        ..entry("PEPE", "STARGATE", 1, "0", "0")
    };
    let q = simulate_bridge_quote(&e);
    assert_eq!(q.spread_percentage, Decimal { micros: i64::MAX });
    assert_eq!(q.available_liquidity, Decimal { micros: i64::MAX });
    let e = TokenEntry {
        liquidity_score: Decimal { micros: i64::MIN },
        ..entry("PEPE", "STARGATE", 1, "0", "0")
    };
    let q = simulate_bridge_quote(&e);
    assert_eq!(q.spread_percentage, dec("0"));
    assert_eq!(q.available_liquidity, Decimal { micros: i64::MIN });
}

#[test]
fn lookup_tables_of_the_quote_source() {
    assert_eq!(get_token_volatility("DAI"), dec("1.0"));
    assert_eq!(get_token_volatility("WETH"), dec("1.1"));
    assert_eq!(get_token_volatility("MATIC"), dec("1.3"));
    assert_eq!(get_bridge_efficiency("ACROSS"), dec("1.15"));
    assert_eq!(get_bridge_efficiency("LIFI"), dec("1.0"));
    assert_eq!(get_bridge_efficiency("SOCKET"), dec("0.9"));
    assert_eq!(estimate_gas_cost(1), dec("15.0"));
    assert_eq!(estimate_gas_cost(137), dec("0.5"));
    assert_eq!(estimate_gas_cost(42161), dec("0.8"));
    assert_eq!(estimate_gas_cost(10), dec("1.0"));
    assert_eq!(estimate_gas_cost(8453), dec("0.5"));
    assert_eq!(estimate_gas_cost(56), dec("0.3"));
    assert_eq!(estimate_gas_cost(43114), dec("2.0"));
    assert_eq!(estimate_gas_cost(250), dec("5.0"));
}

#[test]
fn lookup_tables_of_the_predictors() {
    assert_eq!(get_bridge_score("CCIP"), dec("90"));
    assert_eq!(get_bridge_score("LIFI"), dec("75"));
    assert_eq!(get_bridge_score("SOCKET"), dec("75"));
    assert_eq!(get_bridge_score("CELER"), dec("65"));
    assert_eq!(get_bridge_score("LAYERZERO"), dec("65"));
    assert_eq!(get_bridge_score("WORMHOLE"), dec("50"));
    assert_eq!(get_token_score("USDT"), dec("95"));
    assert_eq!(get_token_score("WBTC"), dec("90"));
    assert_eq!(get_token_score("ARB"), dec("80"));
    assert_eq!(get_token_score("LINK"), dec("75"));
    assert_eq!(get_token_score("AAVE"), dec("75"));
    assert_eq!(get_token_score("PEPE"), dec("60"));
}

#[test]
fn features_of_a_route() {
    let e = entry("ETH", "ACROSS", 137, "88.0", "0.15");
    let q = quote("1.2", "0.5", "8.0", "500000.0");
    let f = extract_features(&e, &q);
    assert_eq!(f.liquidity_score, 88_000_000);
    assert_eq!(f.spread_score, 24_000_000);
    assert_eq!(f.bridge_score, 90_000_000);
    assert_eq!(f.token_score, 90_000_000);
    assert_eq!(f.slippage_penalty, 25_000_000);
    assert_eq!(f.gas_efficiency, 60_000_000);
    let f = extract_features(&e, &quote("7", "0.5", "25", "1"));
    assert_eq!(f.spread_score, 100_000_000);
    assert_eq!(f.gas_efficiency, 0);
}

#[test]
fn predictions_of_the_two_models() {
    let e = entry("USDC", "STARGATE", 137, "95.0", "0.3");
    let q = quote("1.5", "0.3", "5.0", "1000000.0");
    assert_eq!(run_tar_onnx(&e, &q), dec("74.5"));
    assert_eq!(run_flanker(&e, &q), dec("89"));
    let e = entry("ETH", "ACROSS", 137, "88.0", "0.15");
    let q = quote("1.2", "0.5", "8.0", "500000.0");
    assert_eq!(run_tar_onnx(&e, &q), dec("69.6"));
    assert_eq!(run_flanker(&e, &q), dec("83.4"));
}

#[test]
fn predictions_are_kept_within_0_and_100() {
    let e = entry("USDC", "STARGATE", 137, "400", "0.3");
    let q = quote("9", "0", "0", "1");
    assert_eq!(run_tar_onnx(&e, &q), dec("100"));
    assert_eq!(run_flanker(&e, &q), dec("100"));
    let e = entry("PEPE", "XYZ", 137, "-900", "0.3");
    let q = quote("0", "50", "30", "1");
    assert_eq!(run_tar_onnx(&e, &q), dec("0"));
    assert_eq!(run_flanker(&e, &q), dec("0"));
}

#[test]
fn loading_a_model_is_not_offered() {
    assert_eq!(
        load_onnx_model("model.onnx"),
        Err("ONNX integration not implemented yet".to_string())
    );
}
