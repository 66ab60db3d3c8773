//! The route matrix: a text whose data section holds one route per line, as
//! eight comma-separated fields.
//!
//! Everything before the line that holds the data marker is ignored. After it,
//! blank lines, lines that begin with `#` and the column header are skipped,
//! and so is any line that does not have exactly eight fields. A numeric field
//! that cannot be read becomes zero, and the row is kept with a warning.

use vstd::prelude::*;
use crate::decimal::{decimal_of_text, parse_u64, u64_of_text, Decimal};
use crate::text::{
    chars_contain, chars_of, chars_start_with, contains_text, split, split_chars, starts_with,
    string_from_chars, trim, trim_chars, views,
};

verus! {

/// One route of the matrix.
#[derive(Debug, Clone)]
pub struct TokenEntry {
    pub chain_origin: u64,
    pub chain_dest: u64,
    pub native_token: String,
    pub dex_origin: String,
    pub dex_dest: String,
    pub bridge_protocol: String,
    pub liquidity_score: Decimal,
    pub fee_tier: Decimal,
}

/// What a `TokenEntry` holds, as mathematical values.
pub struct RouteRecord {
    pub chain_origin: u64,
    pub chain_dest: u64,
    pub native_token: Seq<char>,
    pub dex_origin: Seq<char>,
    pub dex_dest: Seq<char>,
    pub bridge_protocol: Seq<char>,
    pub liquidity_score: int,
    pub fee_tier: int,
}

impl View for TokenEntry {
    type V = RouteRecord;

    open spec fn view(&self) -> RouteRecord {
        RouteRecord {
            chain_origin: self.chain_origin,
            chain_dest: self.chain_dest,
            native_token: self.native_token@,
            dex_origin: self.dex_origin@,
            dex_dest: self.dex_dest@,
            bridge_protocol: self.bridge_protocol@,
            liquidity_score: self.liquidity_score@,
            fee_tier: self.fee_tier@,
        }
    }
}

/// The numeric columns of a row.
#[derive(Debug, Clone, Copy, PartialEq, Eq, Structural)]
pub enum NumericField {
    ChainOrigin,
    ChainDest,
    LiquidityScore,
    FeeTier,
}

/// A numeric field that could not be read and was replaced by zero.
#[derive(Debug, Clone)]
pub struct FieldWarning {
    /// The column.
    pub field: NumericField,
    /// The text that stood in it.
    pub text: String,
}

/// What a `FieldWarning` holds, as mathematical values.
pub struct FieldWarningView {
    pub field: NumericField,
    pub text: Seq<char>,
}

impl View for FieldWarning {
    type V = FieldWarningView;

    open spec fn view(&self) -> FieldWarningView {
        FieldWarningView { field: self.field, text: self.text@ }
    }
}

/// A row of the data section: the route and the warnings raised while reading it.
#[derive(Debug, Clone)]
pub struct ParsedRow {
    pub entry: TokenEntry,
    pub warnings: Vec<FieldWarning>,
}

/// What a `ParsedRow` holds, as mathematical values.
pub struct ParsedRowView {
    pub entry: RouteRecord,
    pub warnings: Seq<FieldWarningView>,
}

impl View for ParsedRow {
    type V = ParsedRowView;

    open spec fn view(&self) -> ParsedRowView {
        ParsedRowView {
            entry: self.entry@,
            warnings: Seq::new(self.warnings@.len(), |i: int| self.warnings@[i]@),
        }
    }
}

/// Why a matrix could not be loaded.
#[derive(Debug, Clone, Copy, PartialEq, Eq, Structural)]
pub enum MatrixError {
    /// The text holds no row that was accepted.
    NoValidEntries,
}

/// The warning for a `u64` column whose text is `text`, if it cannot be read.
pub open spec fn u64_warning(field: NumericField, text: Seq<char>) -> Seq<FieldWarningView> {
    if u64_of_text(text) is None {
        seq![FieldWarningView { field, text }]
    } else {
        Seq::empty()
    }
}

/// The warning for a decimal column whose text is `text`, if it cannot be read.
pub open spec fn decimal_warning(field: NumericField, text: Seq<char>) -> Seq<FieldWarningView> {
    if decimal_of_text(text) is None {
        seq![FieldWarningView { field, text }]
    } else {
        Seq::empty()
    }
}

/// The `u64` that `text` writes, or zero.
pub open spec fn u64_or_zero(text: Seq<char>) -> u64 {
    match u64_of_text(text) {
        Some(v) => v,
        None => 0,
    }
}

/// The decimal that `text` writes, in millionths, or zero.
pub open spec fn decimal_or_zero(text: Seq<char>) -> int {
    match decimal_of_text(text) {
        Some(v) => v,
        None => 0,
    }
}

/// The row that eight fields make.
pub open spec fn row_of_fields(f: Seq<Seq<char>>) -> ParsedRowView
    recommends
        f.len() == 8,
{
    ParsedRowView {
        entry: RouteRecord {
            chain_origin: u64_or_zero(f[0]),
            chain_dest: u64_or_zero(f[1]),
            native_token: f[2],
            dex_origin: f[3],
            dex_dest: f[4],
            bridge_protocol: f[5],
            liquidity_score: decimal_or_zero(f[6]),
            fee_tier: decimal_or_zero(f[7]),
        },
        warnings: u64_warning(NumericField::ChainOrigin, f[0]) + u64_warning(
            NumericField::ChainDest,
            f[1],
        ) + decimal_warning(NumericField::LiquidityScore, f[6]) + decimal_warning(
            NumericField::FeeTier,
            f[7],
        ),
    }
}

/// Whether the line opens the data section: trimmed, it holds the marker.
pub open spec fn is_marker_line(line: Seq<char>) -> bool {
    contains_text(trim(line), "## Data Entries"@)
}

/// Whether some line of `lines` opens the data section.
pub open spec fn marker_seen(lines: Seq<Seq<char>>) -> bool {
    exists|j: int| 0 <= j < lines.len() && is_marker_line(#[trigger] lines[j])
}

/// The row that a line of the data section writes, if it writes one: the line,
/// trimmed, is not empty, holds no marker, begins neither with `#` nor with the
/// column header, and has exactly eight fields.
pub open spec fn row_of_line(line: Seq<char>) -> Option<ParsedRowView> {
    let t = trim(line);
    if t.len() == 0 || contains_text(t, "## Data Entries"@) || starts_with(t, "#"@)
        || starts_with(t, "chain_origin"@) || split(t, ',').len() != 8 {
        None
    } else {
        Some(row_of_fields(split(t, ',')))
    }
}

/// The rows of a matrix given line by line: each line after the first marker
/// line that writes a row, in order.
pub open spec fn rows_of_lines(lines: Seq<Seq<char>>) -> Seq<ParsedRowView>
    decreases lines.len(),
{
    if lines.len() == 0 {
        Seq::empty()
    } else {
        let before = lines.drop_last();
        match row_of_line(lines.last()) {
            Some(r) => if marker_seen(before) {
                rows_of_lines(before).push(r)
            } else {
                rows_of_lines(before)
            },
            None => rows_of_lines(before),
        }
    }
}

/// The rows of a matrix text.
pub open spec fn rows_of_text(text: Seq<char>) -> Seq<ParsedRowView> {
    rows_of_lines(split(text, '\n'))
}

/// The views of `rows`, in order.
pub open spec fn row_views(rows: Seq<ParsedRow>) -> Seq<ParsedRowView> {
    Seq::new(rows.len(), |i: int| rows[i]@)
}

/// The views of `entries`, in order.
pub open spec fn entry_views(entries: Seq<TokenEntry>) -> Seq<RouteRecord> {
    Seq::new(entries.len(), |i: int| entries[i]@)
}

/// The routes of `rows`, in order.
pub open spec fn entries_of_rows(rows: Seq<ParsedRowView>) -> Seq<RouteRecord> {
    Seq::new(rows.len(), |i: int| rows[i].entry)
}

impl MatrixError {
    /// The error in words.
    pub fn message(&self) -> (r: String)
        ensures
            r@ == "No valid entries found in matrix file"@,
    {
        "No valid entries found in matrix file".to_owned()
    }
}

impl TokenEntry {
    /// A copy of the entry.
    pub fn duplicate(&self) -> (r: TokenEntry)
        ensures
            r@ == self@,
    {
        TokenEntry {
            chain_origin: self.chain_origin,
            chain_dest: self.chain_dest,
            native_token: self.native_token.clone(),
            dex_origin: self.dex_origin.clone(),
            dex_dest: self.dex_dest.clone(),
            bridge_protocol: self.bridge_protocol.clone(),
            liquidity_score: self.liquidity_score,
            fee_tier: self.fee_tier,
        }
    }
}

/// Reads a `u64` column; where it cannot be read, gives zero and adds a warning.
fn read_u64_field(field: NumericField, text: &Vec<char>, warnings: &mut Vec<FieldWarning>) -> (v:
    u64)
    ensures
        v == u64_or_zero(text@),
        Seq::new(final(warnings)@.len(), |i: int| final(warnings)@[i]@) == Seq::new(
            old(warnings)@.len(),
            |i: int| old(warnings)@[i]@,
        ) + u64_warning(field, text@),
{
    let ghost before = Seq::new(warnings@.len(), |i: int| warnings@[i]@);
    match parse_u64(text.as_slice()) {
        Some(v) => {
            assert(before + Seq::<FieldWarningView>::empty() =~= before);
            v
        },
        None => {
            let w = FieldWarning { field, text: string_from_chars(text.as_slice()) };
            warnings.push(w);
            assert(Seq::new(warnings@.len(), |i: int| warnings@[i]@) =~= before + u64_warning(
                field,
                text@,
            ));
            0
        },
    }
}

/// Reads a decimal column; where it cannot be read, gives zero and adds a warning.
fn read_decimal_field(
    field: NumericField,
    text: &Vec<char>,
    warnings: &mut Vec<FieldWarning>,
) -> (v: Decimal)
    ensures
        v@ == decimal_or_zero(text@),
        Seq::new(final(warnings)@.len(), |i: int| final(warnings)@[i]@) == Seq::new(
            old(warnings)@.len(),
            |i: int| old(warnings)@[i]@,
        ) + decimal_warning(field, text@),
{
    let ghost before = Seq::new(warnings@.len(), |i: int| warnings@[i]@);
    match Decimal::parse_chars(text.as_slice()) {
        Some(v) => {
            assert(before + Seq::<FieldWarningView>::empty() =~= before);
            v
        },
        None => {
            let w = FieldWarning { field, text: string_from_chars(text.as_slice()) };
            warnings.push(w);
            assert(Seq::new(warnings@.len(), |i: int| warnings@[i]@) =~= before
                + decimal_warning(field, text@));
            Decimal { micros: 0 }
        },
    }
}

/// The row that eight fields make.
fn build_row(fields: &Vec<Vec<char>>) -> (row: ParsedRow)
    requires
        fields@.len() == 8,
    ensures
        row@ == row_of_fields(views(fields@)),
{
    let mut warnings: Vec<FieldWarning> = Vec::new();
    let ghost f = views(fields@);
    let ghost w0 = Seq::new(warnings@.len(), |i: int| warnings@[i]@);
    assert(w0 =~= Seq::<FieldWarningView>::empty());
    let chain_origin: u64 = read_u64_field(NumericField::ChainOrigin, &fields[0], &mut warnings);
    let chain_dest: u64 = read_u64_field(NumericField::ChainDest, &fields[1], &mut warnings);
    let liquidity_score: Decimal = read_decimal_field(
        NumericField::LiquidityScore,
        &fields[6],
        &mut warnings,
    );
    let fee_tier: Decimal = read_decimal_field(NumericField::FeeTier, &fields[7], &mut warnings);
    let entry = TokenEntry {
        chain_origin,
        chain_dest,
        native_token: string_from_chars(fields[2].as_slice()),
        dex_origin: string_from_chars(fields[3].as_slice()),
        dex_dest: string_from_chars(fields[4].as_slice()),
        bridge_protocol: string_from_chars(fields[5].as_slice()),
        liquidity_score,
        fee_tier,
    };
    let row = ParsedRow { entry, warnings };
    proof {
        assert(row@.warnings =~= row_of_fields(f).warnings);
    }
    row
}

/// The row that a line of the data section writes, if it writes one.
fn parse_line(line: &Vec<char>, marker: &Vec<char>, hash: &Vec<char>, header: &Vec<char>) -> (r:
    (bool, Option<ParsedRow>))
    requires
        marker@ == "## Data Entries"@,
        hash@ == "#"@,
        header@ == "chain_origin"@,
    ensures
        r.0 == is_marker_line(line@),
        match r.1 {
            Some(row) => row_of_line(line@) == Some(row@),
            None => row_of_line(line@) is None,
        },
{
    let t: &[char] = trim_chars(line.as_slice());
    if t.len() == 0 {
        assert(!contains_text(t@, marker@)) by {
            reveal_strlit("## Data Entries");
        }
        return (false, None);
    }
    if chars_contain(t, marker.as_slice()) {
        return (true, None);
    }
    if chars_start_with(t, hash.as_slice()) || chars_start_with(t, header.as_slice()) {
        return (false, None);
    }
    let fields: Vec<Vec<char>> = split_chars(t, ',');
    if fields.len() != 8 {
        return (false, None);
    }
    let row = build_row(&fields);
    (false, Some(row))
}

/// Reads the rows of a matrix text, with the warnings raised on the way.
pub fn parse_token_matrix(text: &str) -> (rows: Vec<ParsedRow>)
    ensures
        row_views(rows@) == rows_of_text(text@),
{
    let chars: Vec<char> = chars_of(text);
    let lines: Vec<Vec<char>> = split_chars(chars.as_slice(), '\n');
    let marker: Vec<char> = chars_of("## Data Entries");
    let hash: Vec<char> = chars_of("#");
    let header: Vec<char> = chars_of("chain_origin");
    let mut rows: Vec<ParsedRow> = Vec::new();
    let mut in_data: bool = false;
    let mut i: usize = 0;
    let ghost all = views(lines@);
    assert(all.take(0) =~= Seq::<Seq<char>>::empty());
    assert(row_views(rows@) =~= Seq::<ParsedRowView>::empty());
    while i < lines.len()
        invariant
            i <= lines.len(),
            all == views(lines@),
            marker@ == "## Data Entries"@,
            hash@ == "#"@,
            header@ == "chain_origin"@,
            in_data == marker_seen(all.take(i as int)),
            row_views(rows@) == rows_of_lines(all.take(i as int)),
        decreases lines.len() - i,
    {
        let ghost before = all.take(i as int);
        let ghost upto = all.take(i as int + 1);
        let ghost old_rows = row_views(rows@);
        proof {
            assert(upto.drop_last() =~= before);
            assert(upto.last() == lines@[i as int]@);
        }
        let (is_marker, parsed) = parse_line(&lines[i], &marker, &hash, &header);
        match parsed {
            Some(row) => {
                if in_data {
                    let ghost rv = row@;
                    rows.push(row);
                    assert(row_views(rows@) =~= old_rows.push(rv));
                }
            },
            None => {},
        }
        proof {
            if marker_seen(before) {
                let j = choose|j: int| 0 <= j < before.len() && is_marker_line(#[trigger] before[j]);
                assert(upto[j] == before[j]);
            }
            if is_marker {
                assert(is_marker_line(upto[i as int]));
            }
            if marker_seen(upto) && !is_marker {
                let j = choose|j: int| 0 <= j < upto.len() && is_marker_line(#[trigger] upto[j]);
                assert(j < i);
                assert(before[j] == upto[j]);
            }
        }
        in_data = in_data || is_marker;
        i = i + 1;
    }
    assert(all.take(i as int) =~= all);
    rows
}

/// The routes of `rows`, in order, or `NoValidEntries` where there is none.
pub fn entries_of(rows: Vec<ParsedRow>) -> (r: Result<Vec<TokenEntry>, MatrixError>)
    ensures
        match r {
            Ok(entries) => rows@.len() > 0 && entry_views(entries@) == entries_of_rows(
                row_views(rows@),
            ),
            Err(e) => rows@.len() == 0 && e == MatrixError::NoValidEntries,
        },
{
    if rows.len() == 0 {
        return Err(MatrixError::NoValidEntries);
    }
    let mut entries: Vec<TokenEntry> = Vec::new();
    let mut i: usize = 0;
    while i < rows.len()
        invariant
            i <= rows.len(),
            entries@.len() == i,
            forall|j: int| 0 <= j < i ==> entries@[j]@ == rows@[j]@.entry,
        decreases rows.len() - i,
    {
        let e = rows[i].entry.duplicate();
        entries.push(e);
        i = i + 1;
    }
    assert(entry_views(entries@) =~= entries_of_rows(row_views(rows@)));
    Ok(entries)
}

/// Loads the routes of a matrix text. Fails with `NoValidEntries` exactly when
/// the text holds no accepted row.
pub fn load_token_matrix(text: &str) -> (r: Result<Vec<TokenEntry>, MatrixError>)
    ensures
        match r {
            Ok(entries) => rows_of_text(text@).len() > 0 && entry_views(entries@)
                == entries_of_rows(rows_of_text(text@)),
            Err(e) => rows_of_text(text@).len() == 0 && e == MatrixError::NoValidEntries,
        },
{
    let rows = parse_token_matrix(text);
    entries_of(rows)
}

} // verus!
