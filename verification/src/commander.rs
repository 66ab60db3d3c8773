//! Loan sizing under guardrails: a requested amount is capped by a share of
//! the pool's liquidity and rejected where it falls below a floor.

use vstd::prelude::*;
use crate::amount::{amount_limit, Amount};
use crate::decimal::{pow10, Decimal};

verus! {

/// The share of a pool that may be borrowed by default: 0.20.
pub const DEFAULT_MAX_TVL_SHARE: i64 = 200_000;

/// The slippage tolerance by default: 0.995.
pub const DEFAULT_SLIPPAGE_TOLERANCE: i64 = 995_000;

/// The minimum loan in US dollars by default.
pub const DEFAULT_MIN_LOAN_USD: u64 = 10_000;

/// The units of a token below which a trade is not worth making.
pub const FLOOR_UNITS: u64 = 500;

/// How a sizing ended.
#[derive(Debug, Clone, Copy, PartialEq, Eq, Structural)]
pub enum SizingOutcome {
    /// The pool was read and the requested amount stands.
    Accepted,
    /// The pool was read and the amount was brought down to the cap.
    ScaledDown,
    /// The amount, after the cap if there was one, is below the floor.
    RejectedBelowFloor,
    /// No liquidity was known; the requested amount stands.
    PaperModeFallback,
}

/// Why a sizing could not be made.
#[derive(Debug, Clone, Copy, PartialEq, Eq, Structural)]
pub enum SizingError {
    /// The share of the pool that may be borrowed is not above 0 and at most 1.
    InvalidTvlShare,
}

/// A sizing, with what it was decided on.
#[derive(Debug, Clone, Copy)]
pub struct LoanSizingDecision {
    /// The amount that was asked for.
    pub requested: Amount,
    /// The most the pool allows; `None` where no liquidity was known.
    pub cap: Option<Amount>,
    /// The least worth trading; `None` where it is 2^256 or more.
    pub floor: Option<Amount>,
    /// The amount to trade; zero where the trade is rejected.
    pub final_amount: Amount,
    /// How the sizing ended.
    pub outcome: SizingOutcome,
}

/// What a `LoanSizingDecision` holds, as mathematical values.
pub struct SizingView {
    pub requested: nat,
    pub cap: Option<nat>,
    pub floor: nat,
    pub final_amount: nat,
    pub outcome: SizingOutcome,
}

/// The guardrails of loan sizing for one chain.
#[derive(Debug, Clone, Copy)]
pub struct TitanCommander {
    /// The chain the guardrails are for.
    pub chain_id: u64,
    /// The minimum loan, in US dollars.
    pub min_loan_usd: u64,
    /// The share of a pool that may be borrowed, above 0 and at most 1.
    pub max_tvl_share: Decimal,
    /// The slippage tolerance, above 0 and at most 1.
    pub slippage_tolerance: Decimal,
}

/// The floor for a token of `decimals` decimals: 500 units.
pub open spec fn floor_of(decimals: u8) -> nat {
    500 * pow10(decimals as nat)
}

/// The cap on a pool of `pool` for a share of `share` millionths, rounded
/// down.
pub open spec fn cap_of(pool: nat, share: int) -> nat {
    (pool * (share as nat)) / 1_000_000
}

/// Whether a share, in millionths, is above 0 and at most 1.
pub open spec fn share_is_valid(share: int) -> bool {
    0 < share <= 1_000_000
}

/// Whether a reading tells of liquidity: it was made, and is not zero.
pub open spec fn is_live(reading: Option<nat>) -> bool {
    reading is Some && reading->0 != 0
}

/// The sizing of `requested` for a token of `decimals` decimals under a
/// liquidity reading and a share in millionths.
pub open spec fn sizing_of(share: int, reading: Option<nat>, requested: nat, decimals: u8)
    -> SizingView {
    let floor = floor_of(decimals);
    if is_live(reading) {
        let cap = cap_of(reading->0, share);
        let amount = if requested > cap {
            cap
        } else {
            requested
        };
        SizingView {
            requested,
            cap: Some(cap),
            floor,
            final_amount: if amount < floor {
                0
            } else {
                amount
            },
            outcome: if amount < floor {
                SizingOutcome::RejectedBelowFloor
            } else if requested > cap {
                SizingOutcome::ScaledDown
            } else {
                SizingOutcome::Accepted
            },
        }
    } else {
        SizingView {
            requested,
            cap: None,
            floor,
            final_amount: if requested < floor {
                0
            } else {
                requested
            },
            outcome: if requested < floor {
                SizingOutcome::RejectedBelowFloor
            } else {
                SizingOutcome::PaperModeFallback
            },
        }
    }
}

impl LoanSizingDecision {
    /// Whether the decision holds the sizing `v`.
    pub open spec fn matches_view(&self, v: SizingView) -> bool {
        &&& self.requested@ == v.requested
        &&& match self.cap {
            Some(c) => v.cap == Some(c@),
            None => v.cap is None,
        }
        &&& match self.floor {
            Some(f) => f@ == v.floor,
            None => v.floor >= amount_limit(),
        }
        &&& self.final_amount@ == v.final_amount
        &&& self.outcome == v.outcome
    }
}

/// The amount of a sizing is zero, or it is no less than the floor and no
/// more than what was requested, and no more than the cap where there is one,
/// which in turn is no more than the pool. It is zero exactly when the sizing
/// is a rejection.
pub proof fn lemma_sizing_bounds(share: int, reading: Option<nat>, requested: nat, decimals: u8)
    requires
        share_is_valid(share) || !is_live(reading),
    ensures
        ({
            let v = sizing_of(share, reading, requested, decimals);
            &&& v.final_amount == 0 || (v.floor <= v.final_amount <= requested)
            &&& v.cap is Some ==> v.final_amount <= v.cap->0
            &&& v.cap is Some ==> v.cap->0 <= reading->0
            &&& v.outcome == SizingOutcome::RejectedBelowFloor ==> v.final_amount == 0
            &&& v.outcome != SizingOutcome::RejectedBelowFloor ==> v.final_amount >= v.floor
                && v.final_amount > 0
            &&& v.cap is None <==> !is_live(reading)
        }),
{
    crate::amount::lemma_pow10_monotonic(0, decimals as nat);
    if is_live(reading) {
        lemma_cap_within_pool(reading->0, share);
    }
}

/// A cap for a valid share is no more than the pool.
pub proof fn lemma_cap_within_pool(pool: nat, share: int)
    requires
        share_is_valid(share),
    ensures
        cap_of(pool, share) <= pool,
{
    let s = share as nat;
    assert(pool * s <= pool * 1_000_000) by (nonlinear_arith)
        requires
            s <= 1_000_000,
    ;
    assert((pool * s) / 1_000_000 <= pool) by (nonlinear_arith)
        requires
            pool * s <= pool * 1_000_000,
    ;
}

/// The floor for a token of `decimals` decimals, or `None` where it is 2^256
/// or more.
fn min_floor(decimals: u8) -> (r: Option<Amount>)
    ensures
        match r {
            Some(f) => f@ == floor_of(decimals),
            None => floor_of(decimals) >= amount_limit(),
        },
{
    match Amount::exp10(decimals as usize) {
        Some(p) => Amount::from_u64(FLOOR_UNITS).checked_mul(&p),
        None => {
            assert(500 * pow10(decimals as nat) >= pow10(decimals as nat)) by (nonlinear_arith);
            None
        },
    }
}

/// The cap on a pool for a valid share: the share of the pool, rounded down.
/// The pool is taken apart into whole millions and a rest below a million, so
/// that no product on the way leaves 256 bits.
fn max_cap(pool_liquidity: &Amount, share: Decimal) -> (cap: Amount)
    requires
        share_is_valid(share@),
    ensures
        cap@ == cap_of(pool_liquidity@, share@),
{
    let million = Amount::from_u64(1_000_000);
    let s = Amount::from_u64(share.micros as u64);
    let (q, r) = match pool_liquidity.checked_div_rem(&million) {
        Some(qr) => qr,
        None => (Amount::zero(), Amount::zero()),
    };
    let ghost pool = pool_liquidity@;
    let ghost sv = share@ as nat;
    proof {
        assert(pool == 1_000_000 * q@ + r@ && r@ < 1_000_000) by (nonlinear_arith)
            requires
                q@ == pool / 1_000_000,
                r@ == pool % 1_000_000,
        ;
        assert(q@ * sv <= pool) by (nonlinear_arith)
            requires
                pool == 1_000_000 * q@ + r@,
                sv <= 1_000_000,
        ;
        assert(r@ * sv < 1_000_000 * 1_000_000) by (nonlinear_arith)
            requires
                r@ < 1_000_000,
                sv <= 1_000_000,
        ;
        assert((pool * sv) / 1_000_000 == q@ * sv + (r@ * sv) / 1_000_000) by (nonlinear_arith)
            requires
                pool == 1_000_000 * q@ + r@,
        ;
        lemma_cap_within_pool(pool, share@);
    }
    let whole = match q.checked_mul(&s) {
        Some(w) => w,
        None => Amount::zero(),
    };
    let part = match r.checked_mul(&s) {
        Some(p) => p,
        None => Amount::zero(),
    };
    let rest = match part.checked_div_rem(&million) {
        Some(qr) => qr.0,
        None => Amount::zero(),
    };
    match whole.checked_add(&rest) {
        Some(c) => c,
        None => Amount::zero(),
    }
}

/// Whether `amount` is below a floor that may be beyond every amount.
fn below_floor(amount: &Amount, floor: &Option<Amount>, Ghost(f): Ghost<nat>) -> (r: bool)
    requires
        match floor {
            Some(x) => x@ == f,
            None => f >= amount_limit(),
        },
    ensures
        r == (amount@ < f),
{
    match floor {
        Some(x) => amount.lt(x),
        None => true,
    }
}

impl TitanCommander {
    /// The guardrails for a chain, at their defaults.
    pub fn new(chain_id: u64) -> (c: TitanCommander)
        ensures
            c.chain_id == chain_id,
            c.min_loan_usd == 10_000,
            c.max_tvl_share@ == 200_000,
            c.slippage_tolerance@ == 995_000,
            c.is_valid(),
    {
        TitanCommander {
            chain_id,
            min_loan_usd: DEFAULT_MIN_LOAN_USD,
            max_tvl_share: Decimal { micros: DEFAULT_MAX_TVL_SHARE },
            slippage_tolerance: Decimal { micros: DEFAULT_SLIPPAGE_TOLERANCE },
        }
    }

    /// Whether both the share and the tolerance are above 0 and at most 1.
    pub open spec fn is_valid(&self) -> bool {
        share_is_valid(self.max_tvl_share@) && share_is_valid(self.slippage_tolerance@)
    }

    /// Whether both the share and the tolerance are above 0 and at most 1.
    pub fn check_valid(&self) -> (r: bool)
        ensures
            r == self.is_valid(),
    {
        0 < self.max_tvl_share.micros && self.max_tvl_share.micros <= 1_000_000 && 0
            < self.slippage_tolerance.micros && self.slippage_tolerance.micros <= 1_000_000
    }

    /// The floor for a token of `decimals` decimals: 500 units. `None` where
    /// the floor is 2^256 or more, so that every amount is below it.
    pub fn calculate_min_floor(&self, decimals: u8) -> (r: Option<Amount>)
        ensures
            match r {
                Some(f) => f@ == floor_of(decimals),
                None => floor_of(decimals) >= amount_limit(),
            },
    {
        min_floor(decimals)
    }

    /// The cap on a pool: the share of it that may be borrowed, rounded down.
    /// `None` exactly when that share is not above 0 and at most 1.
    pub fn calculate_max_cap(&self, pool_liquidity: Amount) -> (r: Option<Amount>)
        ensures
            match r {
                Some(c) => share_is_valid(self.max_tvl_share@) && c@ == cap_of(
                    pool_liquidity@,
                    self.max_tvl_share@,
                ),
                None => !share_is_valid(self.max_tvl_share@),
            },
    {
        if 0 < self.max_tvl_share.micros && self.max_tvl_share.micros <= 1_000_000 {
            Some(max_cap(&pool_liquidity, self.max_tvl_share))
        } else {
            None
        }
    }

    /// Sizes a loan when no liquidity is known: the requested amount stands
    /// unless it is below the floor.
    pub fn validate_paper_mode_amount(&self, requested_amount: Amount, decimals: u8) -> (d:
        LoanSizingDecision)
        ensures
            d.matches_view(sizing_of(self.max_tvl_share@, None, requested_amount@, decimals)),
    {
        let floor = min_floor(decimals);
        if below_floor(&requested_amount, &floor, Ghost(floor_of(decimals))) {
            LoanSizingDecision {
                requested: requested_amount,
                cap: None,
                floor,
                final_amount: Amount::zero(),
                outcome: SizingOutcome::RejectedBelowFloor,
            }
        } else {
            LoanSizingDecision {
                requested: requested_amount,
                cap: None,
                floor,
                final_amount: requested_amount,
                outcome: SizingOutcome::PaperModeFallback,
            }
        }
    }

    /// Sizes a loan under a liquidity reading, `None` standing for a reading
    /// that failed. Fails exactly when the reading tells of liquidity and the
    /// share of the pool that may be borrowed is not above 0 and at most 1.
    pub fn size_loan(&self, reading: Option<Amount>, target_amount_raw: Amount, decimals: u8) -> (r:
        Result<LoanSizingDecision, SizingError>)
        ensures
            ({
                let liquidity = match reading {
                    Some(a) => Some(a@),
                    None => None,
                };
                match r {
                    Ok(d) => (share_is_valid(self.max_tvl_share@) || !is_live(liquidity))
                        && d.matches_view(
                        sizing_of(self.max_tvl_share@, liquidity, target_amount_raw@, decimals),
                    ),
                    Err(e) => is_live(liquidity) && !share_is_valid(self.max_tvl_share@) && e
                        == SizingError::InvalidTvlShare,
                }
            }),
    {
        let pool = match reading {
            Some(p) => p,
            None => {
                return Ok(self.validate_paper_mode_amount(target_amount_raw, decimals));
            },
        };
        if pool.is_zero() {
            return Ok(self.validate_paper_mode_amount(target_amount_raw, decimals));
        }
        let cap = match self.calculate_max_cap(pool) {
            Some(c) => c,
            None => {
                return Err(SizingError::InvalidTvlShare);
            },
        };
        let scaled: bool = cap.lt(&target_amount_raw);
        let amount = if scaled {
            cap
        } else {
            target_amount_raw
        };
        let floor = min_floor(decimals);
        if below_floor(&amount, &floor, Ghost(floor_of(decimals))) {
            Ok(
                LoanSizingDecision {
                    requested: target_amount_raw,
                    cap: Some(cap),
                    floor,
                    final_amount: Amount::zero(),
                    outcome: SizingOutcome::RejectedBelowFloor,
                },
            )
        } else {
            Ok(
                LoanSizingDecision {
                    requested: target_amount_raw,
                    cap: Some(cap),
                    floor,
                    final_amount: amount,
                    outcome: if scaled {
                        SizingOutcome::ScaledDown
                    } else {
                        SizingOutcome::Accepted
                    },
                },
            )
        }
    }

    /// The safe amount for a loan under a liquidity reading, or zero where the
    /// trade is not worth making.
    pub fn optimize_loan_size(
        &self,
        reading: Option<Amount>,
        target_amount_raw: Amount,
        decimals: u8,
    ) -> (r: Result<Amount, SizingError>)
        ensures
            ({
                let liquidity = match reading {
                    Some(a) => Some(a@),
                    None => None,
                };
                match r {
                    Ok(a) => (share_is_valid(self.max_tvl_share@) || !is_live(liquidity)) && a@
                        == sizing_of(
                        self.max_tvl_share@,
                        liquidity,
                        target_amount_raw@,
                        decimals,
                    ).final_amount,
                    Err(e) => is_live(liquidity) && !share_is_valid(self.max_tvl_share@) && e
                        == SizingError::InvalidTvlShare,
                }
            }),
    {
        match self.size_loan(reading, target_amount_raw, decimals) {
            Ok(d) => Ok(d.final_amount),
            Err(e) => Err(e),
        }
    }

    /// Sets the minimum loan, in US dollars.
    pub fn set_min_loan_usd(&mut self, min_usd: u64)
        ensures
            final(self).min_loan_usd == min_usd,
            final(self).max_tvl_share == old(self).max_tvl_share,
            final(self).slippage_tolerance == old(self).slippage_tolerance,
            final(self).chain_id == old(self).chain_id,
    {
        self.min_loan_usd = min_usd;
    }

    /// Sets the share of a pool that may be borrowed. The share is checked
    /// when a loan is sized.
    pub fn set_max_tvl_share(&mut self, share: Decimal)
        ensures
            final(self).max_tvl_share == share,
            final(self).min_loan_usd == old(self).min_loan_usd,
            final(self).slippage_tolerance == old(self).slippage_tolerance,
            final(self).chain_id == old(self).chain_id,
    {
        self.max_tvl_share = share;
    }

    /// Sets the slippage tolerance.
    pub fn set_slippage_tolerance(&mut self, tolerance: Decimal)
        ensures
            final(self).slippage_tolerance == tolerance,
            final(self).min_loan_usd == old(self).min_loan_usd,
            final(self).max_tvl_share == old(self).max_tvl_share,
            final(self).chain_id == old(self).chain_id,
    {
        self.slippage_tolerance = tolerance;
    }

    /// The chain the guardrails are for.
    pub fn chain_id(&self) -> (id: u64)
        ensures
            id == self.chain_id,
    {
        self.chain_id
    }
}

} // verus!
