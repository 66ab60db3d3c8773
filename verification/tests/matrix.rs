use titan_core::decimal::Decimal;
use titan_core::omniarb::matrix_parser::{
    entries_of, load_token_matrix, parse_token_matrix, MatrixError, NumericField, TokenEntry,
};

fn dec(s: &str) -> Decimal {
    Decimal::parse(s).unwrap()
}

const HEADER: &str =
    "chain_origin,chain_dest,native_token,dex_origin,dex_dest,bridge_protocol,liquidity_score,fee_tier";

#[test]
fn test_token_entry_creation() {
    let entry = TokenEntry {
        chain_origin: 1,
        chain_dest: 137,
        native_token: "USDC".to_string(),
        dex_origin: "UNISWAP_V3".to_string(),
        dex_dest: "QUICKSWAP".to_string(),
        bridge_protocol: "LIFI".to_string(),
        liquidity_score: dec("95.0"),
        fee_tier: dec("0.3"),
    };

    assert_eq!(entry.chain_origin, 1);
    assert_eq!(entry.native_token, "USDC");
}

#[test]
fn loads_rows_after_the_marker() {
    let text = format!(
        "# Matrix\n1,2,BEFORE,A,B,HOP,50.0,0.1\n\n## Data Entries\n{}\n# a comment\n1,137,USDC,UNISWAP_V3,QUICKSWAP,STARGATE,95.0,0.3\n\n  42161,10,ETH,SUSHI,VELODROME,ACROSS,88.5,0.05  \n",
        HEADER
    );
    let entries = load_token_matrix(&text).unwrap();
    assert_eq!(entries.len(), 2);
    assert_eq!(entries[0].chain_origin, 1);
    assert_eq!(entries[0].chain_dest, 137);
    assert_eq!(entries[0].native_token, "USDC");
    assert_eq!(entries[0].dex_origin, "UNISWAP_V3");
    assert_eq!(entries[0].dex_dest, "QUICKSWAP");
    assert_eq!(entries[0].bridge_protocol, "STARGATE");
    assert_eq!(entries[0].liquidity_score, dec("95.0"));
    assert_eq!(entries[0].fee_tier, dec("0.3"));
    assert_eq!(entries[1].chain_origin, 42161);
    assert_eq!(entries[1].chain_dest, 10);
    assert_eq!(entries[1].native_token, "ETH");
    assert_eq!(entries[1].bridge_protocol, "ACROSS");
    assert_eq!(entries[1].liquidity_score, dec("88.5"));
    assert_eq!(entries[1].fee_tier, dec("0.05"));
}

#[test]
fn drops_rows_of_seven_or_nine_fields() {
    let text = "## Data Entries\n1,137,USDC,A,B,HOP,95.0\n1,137,USDC,A,B,HOP,95.0,0.3,extra\n1,137,DAI,A,B,HOP,95.0,0.3\n";
    let rows = parse_token_matrix(text);
    assert_eq!(rows.len(), 1);
    assert_eq!(rows[0].entry.native_token, "DAI");
    assert!(rows[0].warnings.is_empty());
}

#[test]
fn keeps_a_row_with_a_liquidity_score_that_is_no_number() {
    let text = "## Data Entries\n1,137,USDC,A,B,HOP,high,0.3\n";
    let rows = parse_token_matrix(text);
    assert_eq!(rows.len(), 1);
    assert_eq!(rows[0].entry.liquidity_score, Decimal { micros: 0 });
    assert_eq!(rows[0].entry.fee_tier, dec("0.3"));
    assert_eq!(rows[0].entry.chain_origin, 1);
    assert_eq!(rows[0].warnings.len(), 1);
    assert_eq!(rows[0].warnings[0].field, NumericField::LiquidityScore);
    assert_eq!(rows[0].warnings[0].text, "high");
}

#[test]
fn replaces_each_unreadable_number_by_zero() {
    let text = "## Data Entries\nx, 137,USDC,A,B,HOP,1e2,\n";
    let rows = parse_token_matrix(text);
    assert_eq!(rows.len(), 1);
    let row = &rows[0];
    assert_eq!(row.entry.chain_origin, 0);
    assert_eq!(row.entry.chain_dest, 0);
    assert_eq!(row.entry.liquidity_score, Decimal { micros: 0 });
    assert_eq!(row.entry.fee_tier, Decimal { micros: 0 });
    assert_eq!(row.warnings.len(), 4);
    assert_eq!(row.warnings[0].field, NumericField::ChainOrigin);
    assert_eq!(row.warnings[0].text, "x");
    assert_eq!(row.warnings[1].field, NumericField::ChainDest);
    assert_eq!(row.warnings[1].text, " 137");
    assert_eq!(row.warnings[2].field, NumericField::LiquidityScore);
    assert_eq!(row.warnings[2].text, "1e2");
    assert_eq!(row.warnings[3].field, NumericField::FeeTier);
    assert_eq!(row.warnings[3].text, "");
}

#[test]
fn fails_when_the_marker_is_followed_by_no_valid_row() {
    let text = format!("# Matrix\n## Data Entries\n{}\n# nothing\n1,2,3\n\n", HEADER);
    assert_eq!(load_token_matrix(&text).unwrap_err(), MatrixError::NoValidEntries);
    assert_eq!(
        MatrixError::NoValidEntries.message(),
        "No valid entries found in matrix file"
    );
}

#[test]
fn fails_without_a_marker() {
    let text = "1,137,USDC,A,B,HOP,95.0,0.3\n2,137,USDC,A,B,HOP,95.0,0.3\n";
    assert!(parse_token_matrix(text).is_empty());
    assert_eq!(load_token_matrix(text).unwrap_err(), MatrixError::NoValidEntries);
    assert_eq!(load_token_matrix("").unwrap_err(), MatrixError::NoValidEntries);
}

#[test]
fn takes_the_marker_anywhere_in_a_line() {
    let text = "intro ## Data Entries (below)\r\n1,137,USDC,A,B,HOP,95.0,0.3\r\nchain_originx,1,2,3,4,5,6,7\n#1,137,USDC,A,B,HOP,95.0,0.3";
    let rows = parse_token_matrix(text);
    assert_eq!(rows.len(), 1);
    assert_eq!(rows[0].entry.fee_tier, dec("0.3"));
}

#[test]
fn keeps_the_fields_as_they_stand() {
    let text = "## Data Entries\n1,137, USDC ,,B,HOP,95.0,0.3";
    let rows = parse_token_matrix(text);
    assert_eq!(rows.len(), 1);
    assert_eq!(rows[0].entry.native_token, " USDC ");
    assert_eq!(rows[0].entry.dex_origin, "");
}

#[test]
fn entries_of_no_rows_is_an_error() {
    assert_eq!(entries_of(Vec::new()).unwrap_err(), MatrixError::NoValidEntries);
}

#[test]
fn duplicate_copies_every_field() {
    let text = "## Data Entries\n1,137,USDC,A,B,HOP,95.0,0.3";
    let entries = load_token_matrix(text).unwrap();
    let copy = entries[0].duplicate();
    assert_eq!(copy.chain_origin, 1);
    assert_eq!(copy.chain_dest, 137);
    assert_eq!(copy.native_token, "USDC");
    assert_eq!(copy.dex_origin, "A");
    assert_eq!(copy.dex_dest, "B");
    assert_eq!(copy.bridge_protocol, "HOP");
    assert_eq!(copy.liquidity_score, dec("95.0"));
    assert_eq!(copy.fee_tier, dec("0.3"));
}
