//! Ranking of scored routes: keep those whose TAR score reaches a threshold,
//! order them from the highest score down, and report the best of them with
//! the size and the mean score of what was kept.

use vstd::prelude::*;
use crate::decimal::{div_floor, Decimal};
use crate::omniarb::data_fetcher::{quote_of, simulate_bridge_quote, QuoteInfo};
use crate::omniarb::matrix_parser::{RouteRecord, TokenEntry};
use crate::omniarb::model_bridge::{flanker_score, run_flanker, run_tar_onnx, tar_onnx_score};
use crate::omniarb::tar_scorer::{calculate_tar_score, tar_score};

verus! {

/// A score as it reaches the ranking: a number, or the mark that a scorer
/// produced no number.
#[derive(Debug, Clone, Copy, PartialEq, Eq, Structural)]
pub enum Score {
    /// No number.
    NotANumber,
    /// A number.
    Value(Decimal),
}

impl Score {
    /// The key a score is ordered by: its number in millionths, and for
    /// `NotANumber` a key below that of every number.
    pub open spec fn key(self) -> int {
        match self {
            Score::NotANumber => i64::MIN as int - 1,
            Score::Value(d) => d@,
        }
    }

    /// Whether the score is a number no less than `threshold`.
    pub open spec fn reaches(self, threshold: int) -> bool {
        match self {
            Score::NotANumber => false,
            Score::Value(d) => d@ >= threshold,
        }
    }

    /// The key the score is ordered by.
    pub fn rank_key(&self) -> (k: i128)
        ensures
            k == self.key(),
    {
        match self {
            Score::NotANumber => i64::MIN as i128 - 1,
            Score::Value(d) => d.micros as i128,
        }
    }
}

/// A route with its three scores.
#[derive(Debug, Clone)]
pub struct ScoredRoute {
    pub entry: TokenEntry,
    pub tar_score: Score,
    pub onnx_score: Score,
    pub flanker_score: Score,
}

/// What a `ScoredRoute` holds, as mathematical values.
pub struct ScoredRouteView {
    pub entry: RouteRecord,
    pub tar_score: Score,
    pub onnx_score: Score,
    pub flanker_score: Score,
}

impl View for ScoredRoute {
    type V = ScoredRouteView;

    open spec fn view(&self) -> ScoredRouteView {
        ScoredRouteView {
            entry: self.entry@,
            tar_score: self.tar_score,
            onnx_score: self.onnx_score,
            flanker_score: self.flanker_score,
        }
    }
}

/// What the ranking reports.
#[derive(Debug, Clone)]
pub struct RankingReport {
    /// The best routes, highest TAR score first.
    pub top: Vec<ScoredRoute>,
    /// How many routes reached the threshold.
    pub qualifying: usize,
    /// The mean TAR score of the routes that reached the threshold, rounded
    /// down; zero when there is none.
    pub mean_tar_score: Decimal,
}

/// The threshold a TAR score has to reach by default: 85.
pub const DEFAULT_TAR_THRESHOLD: i64 = 85_000_000;

/// How many routes are reported by default.
pub const DEFAULT_TOP_N: usize = 10;

/// The views of `routes`, in order.
pub open spec fn route_views(routes: Seq<ScoredRoute>) -> Seq<ScoredRouteView> {
    Seq::new(routes.len(), |i: int| routes[i]@)
}

/// The routes of `s` whose TAR score reaches `threshold`, in their order.
pub open spec fn qualifying(s: Seq<ScoredRouteView>, threshold: int) -> Seq<ScoredRouteView>
    decreases s.len(),
{
    if s.len() == 0 {
        s
    } else if s.last().tar_score.reaches(threshold) {
        qualifying(s.drop_last(), threshold).push(s.last())
    } else {
        qualifying(s.drop_last(), threshold)
    }
}

/// `sorted` with `x` put behind every route whose TAR score is not below its own.
pub open spec fn insert_ranked(sorted: Seq<ScoredRouteView>, x: ScoredRouteView) -> Seq<
    ScoredRouteView,
>
    decreases sorted.len(),
{
    if sorted.len() == 0 {
        seq![x]
    } else if sorted.last().tar_score.key() >= x.tar_score.key() {
        sorted.push(x)
    } else {
        insert_ranked(sorted.drop_last(), x).push(sorted.last())
    }
}

/// The routes of `s` from the highest TAR score down; routes with equal
/// scores keep their order, and routes without a number come last.
pub open spec fn ranked(s: Seq<ScoredRouteView>) -> Seq<ScoredRouteView>
    decreases s.len(),
{
    if s.len() == 0 {
        s
    } else {
        insert_ranked(ranked(s.drop_last()), s.last())
    }
}

/// Whether the TAR scores of `s` never rise from one route to the next.
pub open spec fn is_descending(s: Seq<ScoredRouteView>) -> bool {
    forall|i: int, j: int|
        0 <= i < j < s.len() ==> (#[trigger] s[i]).tar_score.key() >= (
        #[trigger] s[j]).tar_score.key()
}

/// The sum of the TAR keys of `s`.
pub open spec fn tar_total(s: Seq<ScoredRouteView>) -> int
    decreases s.len(),
{
    if s.len() == 0 {
        0
    } else {
        tar_total(s.drop_last()) + s.last().tar_score.key()
    }
}

/// The mean TAR score of `s`, rounded down; zero for no routes.
pub open spec fn mean_tar(s: Seq<ScoredRouteView>) -> int {
    if s.len() == 0 {
        0
    } else {
        tar_total(s) / (s.len() as int)
    }
}

/// The first `n` routes of `s`, or all of them where there are fewer.
pub open spec fn first_n(s: Seq<ScoredRouteView>, n: int) -> Seq<ScoredRouteView> {
    if n < s.len() {
        s.take(n)
    } else {
        s
    }
}

/// A route scored by the three scorers of this library.
pub open spec fn scored(r: RouteRecord, q: crate::omniarb::data_fetcher::QuoteSnapshot)
    -> ScoredRouteView {
    ScoredRouteView {
        entry: r,
        tar_score: Score::Value(Decimal { micros: tar_score(r, q) as i64 }),
        onnx_score: Score::Value(Decimal { micros: tar_onnx_score(r, q) as i64 }),
        flanker_score: Score::Value(Decimal { micros: flanker_score(r, q) as i64 }),
    }
}

/// Every score of a route scored by this library is a number between 0 and
/// 100.
pub proof fn lemma_scored_bounds(r: RouteRecord, q: crate::omniarb::data_fetcher::QuoteSnapshot)
    ensures
        scored(r, q).tar_score is Value,
        scored(r, q).onnx_score is Value,
        scored(r, q).flanker_score is Value,
        scored(r, q).tar_score.key() == tar_score(r, q),
        scored(r, q).onnx_score.key() == tar_onnx_score(r, q),
        scored(r, q).flanker_score.key() == flanker_score(r, q),
        0 <= scored(r, q).tar_score.key() <= 100_000_000,
        0 <= scored(r, q).onnx_score.key() <= 100_000_000,
        0 <= scored(r, q).flanker_score.key() <= 100_000_000,
{
    crate::omniarb::tar_scorer::lemma_tar_score_bounds(r, q);
    crate::omniarb::model_bridge::lemma_model_scores_bounds(r, q);
}

/// Inserting `x` puts it at the index `p` behind which every key is below its
/// own and before which the nearest key is not.
pub proof fn lemma_insert_ranked_at(sorted: Seq<ScoredRouteView>, x: ScoredRouteView, p: int)
    requires
        0 <= p <= sorted.len(),
        forall|i: int| p <= i < sorted.len() ==> sorted[i].tar_score.key() < x.tar_score.key(),
        p > 0 ==> sorted[p - 1].tar_score.key() >= x.tar_score.key(),
    ensures
        insert_ranked(sorted, x) == sorted.take(p).push(x) + sorted.skip(p),
    decreases sorted.len(),
{
    if sorted.len() == 0 {
        assert(sorted.take(p).push(x) + sorted.skip(p) =~= seq![x]);
    } else if p == sorted.len() {
        assert(sorted.take(p).push(x) + sorted.skip(p) =~= sorted.push(x));
    } else {
        let rest = sorted.drop_last();
        lemma_insert_ranked_at(rest, x, p);
        assert(rest.take(p) =~= sorted.take(p));
        assert((rest.take(p).push(x) + rest.skip(p)).push(sorted.last()) =~= sorted.take(p).push(
            x,
        ) + sorted.skip(p));
    }
}

/// Inserting into a descending sequence gives a descending sequence that holds
/// one route more.
pub proof fn lemma_insert_ranked_descending(sorted: Seq<ScoredRouteView>, x: ScoredRouteView)
    requires
        is_descending(sorted),
    ensures
        is_descending(insert_ranked(sorted, x)),
        insert_ranked(sorted, x).len() == sorted.len() + 1,
        insert_ranked(sorted, x).to_multiset() == sorted.to_multiset().insert(x),
    decreases sorted.len(),
{
    broadcast use vstd::seq_lib::group_to_multiset_ensures;

    if sorted.len() == 0 {
        assert(seq![x] =~= Seq::<ScoredRouteView>::empty().push(x));
        assert(sorted =~= Seq::<ScoredRouteView>::empty());
    } else if sorted.last().tar_score.key() >= x.tar_score.key() {
    } else {
        let rest = sorted.drop_last();
        assert forall|i: int, j: int| 0 <= i < j < rest.len() implies (#[trigger] rest[i]).tar_score.key()
            >= (#[trigger] rest[j]).tar_score.key() by {
            assert(rest[i] == sorted[i] && rest[j] == sorted[j]);
        }
        lemma_insert_ranked_descending(rest, x);
        let ins = insert_ranked(rest, x);
        let out = ins.push(sorted.last());
        assert(sorted =~= rest.push(sorted.last()));
        assert forall|i: int, j: int| 0 <= i < j < out.len() implies (#[trigger] out[i]).tar_score.key()
            >= (#[trigger] out[j]).tar_score.key() by {
            if j < ins.len() {
                assert(out[i] == ins[i] && out[j] == ins[j]);
            } else {
                assert(out[i] == ins[i]);
                assert(ins.to_multiset().count(ins[i]) > 0);
                if ins[i] != x {
                    assert(rest.to_multiset().count(ins[i]) > 0);
                    let k = choose|k: int| 0 <= k < rest.len() && rest[k] == ins[i];
                    assert(sorted[k] == rest[k]);
                    assert(sorted[k].tar_score.key() >= sorted[sorted.len() - 1].tar_score.key());
                }
            }
        }
        assert(out.to_multiset() =~= sorted.to_multiset().insert(x));
    }
}

/// Ranking orders the routes from the highest TAR score down and neither
/// drops nor adds a route.
pub proof fn lemma_ranked_is_descending_permutation(s: Seq<ScoredRouteView>)
    ensures
        is_descending(ranked(s)),
        ranked(s).len() == s.len(),
        ranked(s).to_multiset() == s.to_multiset(),
    decreases s.len(),
{
    broadcast use vstd::seq_lib::group_to_multiset_ensures;

    if s.len() > 0 {
        lemma_ranked_is_descending_permutation(s.drop_last());
        lemma_insert_ranked_descending(ranked(s.drop_last()), s.last());
        assert(s =~= s.drop_last().push(s.last()));
    }
}

/// In a ranking, no route without a number stands before a route with one.
pub proof fn lemma_not_a_number_ranks_last(s: Seq<ScoredRouteView>, i: int, j: int)
    requires
        0 <= i < j < ranked(s).len(),
        ranked(s)[i].tar_score is NotANumber,
    ensures
        ranked(s)[j].tar_score is NotANumber,
{
    lemma_ranked_is_descending_permutation(s);
    let r = ranked(s);
    assert(r[i].tar_score.key() >= r[j].tar_score.key());
}

/// Every qualifying route has a number that reaches the threshold, and no more
/// routes qualify than there are.
pub proof fn lemma_qualifying(s: Seq<ScoredRouteView>, threshold: int)
    ensures
        qualifying(s, threshold).len() <= s.len(),
        forall|i: int|
            0 <= i < qualifying(s, threshold).len() ==> (#[trigger] qualifying(
                s,
                threshold,
            )[i]).tar_score.reaches(threshold),
    decreases s.len(),
{
    if s.len() > 0 {
        lemma_qualifying(s.drop_last(), threshold);
    }
}

impl ScoredRoute {
    /// A copy of the scored route.
    pub fn duplicate(&self) -> (r: ScoredRoute)
        ensures
            r@ == self@,
    {
        ScoredRoute {
            entry: self.entry.duplicate(),
            tar_score: self.tar_score,
            onnx_score: self.onnx_score,
            flanker_score: self.flanker_score,
        }
    }
}

/// Scores each route under its quote. Where the two lists differ in length,
/// the routes beyond the shorter one are left out.
pub fn score_routes(entries: &Vec<TokenEntry>, quotes: &Vec<QuoteInfo>) -> (routes: Vec<
    ScoredRoute,
>)
    ensures
        routes@.len() == if entries@.len() <= quotes@.len() {
            entries@.len()
        } else {
            quotes@.len()
        },
        forall|i: int|
            0 <= i < routes@.len() ==> (#[trigger] routes@[i])@ == scored(
                entries@[i]@,
                quotes@[i]@,
            ),
{
    let n: usize = if entries.len() <= quotes.len() {
        entries.len()
    } else {
        quotes.len()
    };
    let mut routes: Vec<ScoredRoute> = Vec::new();
    let mut i: usize = 0;
    while i < n
        invariant
            i <= n,
            n <= entries@.len(),
            n <= quotes@.len(),
            routes@.len() == i,
            forall|j: int|
                0 <= j < i ==> (#[trigger] routes@[j])@ == scored(entries@[j]@, quotes@[j]@),
        decreases n - i,
    {
        let entry = &entries[i];
        let quote = &quotes[i];
        let route = ScoredRoute {
            entry: entry.duplicate(),
            tar_score: Score::Value(calculate_tar_score(entry, quote)),
            onnx_score: Score::Value(run_tar_onnx(entry, quote)),
            flanker_score: Score::Value(run_flanker(entry, quote)),
        };
        routes.push(route);
        i = i + 1;
    }
    routes
}

/// The routes of `routes` whose TAR score reaches `threshold`, with the sum of
/// their scores.
fn keep_qualifying(routes: &Vec<ScoredRoute>, threshold: Decimal) -> (r: (Vec<ScoredRoute>, i128))
    ensures
        route_views(r.0@) == qualifying(route_views(routes@), threshold@),
        r.1 == tar_total(route_views(r.0@)),
{
    let mut kept: Vec<ScoredRoute> = Vec::new();
    let mut total: i128 = 0;
    let mut i: usize = 0;
    let ghost all = route_views(routes@);
    assert(all.take(0) =~= Seq::<ScoredRouteView>::empty());
    assert(route_views(kept@) =~= Seq::<ScoredRouteView>::empty());
    while i < routes.len()
        invariant
            i <= routes.len(),
            all == route_views(routes@),
            route_views(kept@) == qualifying(all.take(i as int), threshold@),
            total == tar_total(route_views(kept@)),
            kept@.len() <= i,
            -(kept@.len() * 0x8000_0000_0000_0000) <= total <= kept@.len()
                * 0x8000_0000_0000_0000,
        decreases routes.len() - i,
    {
        let ghost before = route_views(kept@);
        proof {
            assert(all.take(i as int + 1).drop_last() =~= all.take(i as int));
            assert(all.take(i as int + 1).last() == routes@[i as int]@);
        }
        let route = &routes[i];
        match route.tar_score {
            Score::Value(d) => {
                if d.micros >= threshold.micros {
                    let copy = route.duplicate();
                    kept.push(copy);
                    assert(route_views(kept@) =~= before.push(routes@[i as int]@));
                    assert(route_views(kept@).drop_last() =~= before);
                    total = total + d.micros as i128;
                }
            },
            Score::NotANumber => {},
        }
        i = i + 1;
    }
    assert(all.take(i as int) =~= all);
    (kept, total)
}

/// The routes of `routes` from the highest TAR score down.
pub fn sort_by_tar_score(routes: &Vec<ScoredRoute>) -> (sorted: Vec<ScoredRoute>)
    ensures
        route_views(sorted@) == ranked(route_views(routes@)),
        is_descending(route_views(sorted@)),
        sorted@.len() == routes@.len(),
{
    let mut sorted: Vec<ScoredRoute> = Vec::new();
    let mut i: usize = 0;
    let ghost all = route_views(routes@);
    assert(all.take(0) =~= Seq::<ScoredRouteView>::empty());
    assert(route_views(sorted@) =~= Seq::<ScoredRouteView>::empty());
    while i < routes.len()
        invariant
            i <= routes.len(),
            all == route_views(routes@),
            route_views(sorted@) == ranked(all.take(i as int)),
            sorted@.len() == i,
        decreases routes.len() - i,
    {
        let ghost before = route_views(sorted@);
        proof {
            assert(all.take(i as int + 1).drop_last() =~= all.take(i as int));
            assert(all.take(i as int + 1).last() == routes@[i as int]@);
        }
        let route = routes[i].duplicate();
        let k: i128 = route.tar_score.rank_key();
        let mut p: usize = sorted.len();
        while p > 0 && sorted[p - 1].tar_score.rank_key() < k
            invariant
                p <= sorted@.len(),
                before == route_views(sorted@),
                k == route@.tar_score.key(),
                forall|j: int| p <= j < before.len() ==> before[j].tar_score.key() < k,
            decreases p,
        {
            p = p - 1;
        }
        proof {
            lemma_insert_ranked_at(before, route@, p as int);
        }
        let ghost rv = route@;
        sorted.insert(p, route);
        assert(route_views(sorted@) =~= before.take(p as int).push(rv) + before.skip(p as int));
        i = i + 1;
    }
    assert(all.take(i as int) =~= all);
    proof {
        lemma_ranked_is_descending_permutation(all);
    }
    sorted
}

/// Ranks `routes`: keeps those whose TAR score is a number no less than
/// `threshold`, orders them from the highest score down, and reports the first
/// `top_n` of them with the count and the mean score of all that were kept.
pub fn rank_routes(routes: &Vec<ScoredRoute>, threshold: Decimal, top_n: usize) -> (report:
    RankingReport)
    ensures
        route_views(report.top@) == first_n(
            ranked(qualifying(route_views(routes@), threshold@)),
            top_n as int,
        ),
        report.qualifying == qualifying(route_views(routes@), threshold@).len(),
        report.mean_tar_score@ == mean_tar(qualifying(route_views(routes@), threshold@)),
{
    let (kept, total) = keep_qualifying(routes, threshold);
    let ghost q = qualifying(route_views(routes@), threshold@);
    let count: usize = kept.len();
    let mean: Decimal = if count == 0 {
        Decimal { micros: 0 }
    } else {
        proof {
            lemma_qualifying(route_views(routes@), threshold@);
            lemma_mean_in_range(q, threshold@);
            lemma_total_bounds(q, threshold@);
            assert(total > i128::MIN) by (nonlinear_arith)
                requires
                    0 < count <= 0xffff_ffff_ffff_ffff,
                    count * (i64::MIN as int) <= total,
            ;
        }
        let m: i128 = div_floor(total, count as i128);
        Decimal { micros: m as i64 }
    };
    let mut sorted = sort_by_tar_score(&kept);
    let ghost full = route_views(sorted@);
    if top_n < sorted.len() {
        sorted.truncate(top_n);
        assert(route_views(sorted@) =~= full.take(top_n as int));
    }
    RankingReport { top: sorted, qualifying: count, mean_tar_score: mean }
}

/// The mean of scores that are all numbers is itself within the range of a
/// score.
pub proof fn lemma_mean_in_range(s: Seq<ScoredRouteView>, threshold: int)
    requires
        s.len() > 0,
        forall|i: int| 0 <= i < s.len() ==> (#[trigger] s[i]).tar_score.reaches(threshold),
    ensures
        i64::MIN <= mean_tar(s) <= i64::MAX,
{
    lemma_total_bounds(s, threshold);
    let n = s.len() as int;
    let t = tar_total(s);
    assert(i64::MIN <= t / n <= i64::MAX) by (nonlinear_arith)
        requires
            n > 0,
            n * (i64::MIN as int) <= t <= n * (i64::MAX as int),
    ;
}

/// The sum of `n` scores that are numbers lies within `n` times the range of
/// a score.
pub proof fn lemma_total_bounds(s: Seq<ScoredRouteView>, threshold: int)
    requires
        forall|i: int| 0 <= i < s.len() ==> (#[trigger] s[i]).tar_score.reaches(threshold),
    ensures
        s.len() * (i64::MIN as int) <= tar_total(s) <= s.len() * (i64::MAX as int),
    decreases s.len(),
{
    if s.len() > 0 {
        let rest = s.drop_last();
        assert forall|i: int| 0 <= i < rest.len() implies (#[trigger] rest[i]).tar_score.reaches(
            threshold,
        ) by {
            assert(rest[i] == s[i]);
        }
        lemma_total_bounds(rest, threshold);
        assert(s.last() == s[s.len() - 1]);
        assert(s.last().tar_score.reaches(threshold));
    }
}

/// Quotes every route with the synthetic quote source and scores it.
pub fn evaluate_routes(entries: &Vec<TokenEntry>) -> (routes: Vec<ScoredRoute>)
    ensures
        routes@.len() == entries@.len(),
        forall|i: int|
            0 <= i < routes@.len() ==> (#[trigger] routes@[i])@ == scored(
                entries@[i]@,
                quote_of(entries@[i]@),
            ),
{
    let mut routes: Vec<ScoredRoute> = Vec::new();
    let mut i: usize = 0;
    while i < entries.len()
        invariant
            i <= entries.len(),
            routes@.len() == i,
            forall|j: int|
                0 <= j < i ==> (#[trigger] routes@[j])@ == scored(
                    entries@[j]@,
                    quote_of(entries@[j]@),
                ),
        decreases entries.len() - i,
    {
        let entry = &entries[i];
        let quote = simulate_bridge_quote(entry);
        let route = ScoredRoute {
            entry: entry.duplicate(),
            tar_score: Score::Value(calculate_tar_score(entry, &quote)),
            onnx_score: Score::Value(run_tar_onnx(entry, &quote)),
            flanker_score: Score::Value(run_flanker(entry, &quote)),
        };
        routes.push(route);
        i = i + 1;
    }
    routes
}

} // verus!
