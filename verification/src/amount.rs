//! Token amounts: unsigned integers of 256 bits, held as four 64-bit limbs,
//! least significant first. Arithmetic on them is done by `ethers`' `U256`.

use vstd::prelude::*;
use ethers::abi::ethereum_types::FromDecStrErr;
use ethers::types::U256;
use crate::decimal::{digits_value, is_digit, pow10};

verus! {

/// An unsigned integer below 2^256.
#[derive(Debug, Clone, Copy, PartialEq, Eq)]
pub struct Amount {
    /// The four limbs, least significant first.
    pub limbs: [u64; 4],
}

/// Why a decimal text is no amount.
#[derive(Debug, Clone, Copy, PartialEq, Eq, Structural)]
pub enum AmountParseError {
    /// A character is not a decimal digit.
    InvalidCharacter,
    /// The number does not fit in 256 bits.
    InvalidLength,
}

/// 2^256.
pub open spec fn amount_limit() -> nat {
    0x1_0000_0000_0000_0000_0000_0000_0000_0000_0000_0000_0000_0000_0000_0000_0000_0000nat
}

impl View for Amount {
    type V = nat;

    /// The integer the limbs write.
    open spec fn view(&self) -> nat {
        (self.limbs[0] as nat) + (self.limbs[1] as nat) * 0x1_0000_0000_0000_0000nat + (
        self.limbs[2] as nat) * 0x1_0000_0000_0000_0000_0000_0000_0000_0000nat + (
        self.limbs[3] as nat)
            * 0x1_0000_0000_0000_0000_0000_0000_0000_0000_0000_0000_0000_0000nat
    }
}

/// How many characters at the start of `s` are decimal digits.
pub open spec fn digit_prefix_len(s: Seq<char>) -> nat
    decreases s.len(),
{
    if s.len() > 0 && is_digit(s[0]) {
        1 + digit_prefix_len(s.drop_first())
    } else {
        0
    }
}

/// What reading `s` as a decimal amount gives. The text is read from the left:
/// the digits before the first other character must write a number below
/// 2^256, else the outcome is `InvalidLength`; then a character that is no
/// digit gives `InvalidCharacter`. The empty text writes zero.
pub open spec fn amount_of_text(s: Seq<char>) -> Result<nat, AmountParseError> {
    let n = digit_prefix_len(s) as int;
    if digits_value(s.take(n)) >= amount_limit() {
        Err(AmountParseError::InvalidLength)
    } else if n < s.len() {
        Err(AmountParseError::InvalidCharacter)
    } else {
        Ok(digits_value(s))
    }
}

/// Whether `s` writes `v` in decimal: digits only, at least one, and no
/// leading zero but for zero itself.
pub open spec fn is_decimal_of(s: Seq<char>, v: nat) -> bool {
    &&& s.len() >= 1
    &&& forall|i: int| 0 <= i < s.len() ==> is_digit(#[trigger] s[i])
    &&& digits_value(s) == v
    &&& (s.len() == 1 || s[0] != '0')
}

/// The product of two amounts, where it is below 2^256.
///
/// Calls `U256::checked_mul`, which multiplies in full width and returns
/// `None` exactly when the upper half of the product is not zero.
#[verifier::external_body]
fn u256_checked_mul(a: &Amount, b: &Amount) -> (r: Option<Amount>)
    ensures
        match r {
            Some(p) => p@ == a@ * b@,
            None => a@ * b@ >= amount_limit(),
        },
{
    match U256(a.limbs).checked_mul(U256(b.limbs)) {
        Some(p) => Some(Amount { limbs: p.0 }),
        None => None,
    }
}

/// The sum of two amounts, where it is below 2^256.
///
/// Calls `U256::checked_add`, which adds limb by limb and returns `None`
/// exactly when a carry leaves the highest limb.
#[verifier::external_body]
fn u256_checked_add(a: &Amount, b: &Amount) -> (r: Option<Amount>)
    ensures
        match r {
            Some(s) => s@ == a@ + b@,
            None => a@ + b@ >= amount_limit(),
        },
{
    match U256(a.limbs).checked_add(U256(b.limbs)) {
        Some(s) => Some(Amount { limbs: s.0 }),
        None => None,
    }
}

/// The quotient and the remainder of `a` by a `b` that is not zero.
///
/// Calls `U256::div_mod`, which returns `(a / b, a % b)` and panics only
/// where `b` is zero.
#[verifier::external_body]
fn u256_div_mod(a: &Amount, b: &Amount) -> (r: (Amount, Amount))
    requires
        b@ != 0,
    ensures
        r.0@ == a@ / b@,
        r.1@ == a@ % b@,
{
    let (q, m) = U256(a.limbs).div_mod(U256(b.limbs));
    (Amount { limbs: q.0 }, Amount { limbs: m.0 })
}

/// Ten to the power `n`, for `n` up to 77.
///
/// Calls `U256::exp10`, which multiplies one by ten `n` times and panics
/// where a product overflows; 10^77 is the last power of ten below 2^256.
#[verifier::external_body]
fn u256_exp10(n: usize) -> (r: Amount)
    requires
        n <= 77,
    ensures
        r@ == pow10(n as nat),
{
    Amount { limbs: U256::exp10(n).0 }
}

/// The amount a decimal text writes.
///
/// Calls `U256::from_dec_str`, which reads the bytes from the left, fails
/// with `InvalidCharacter` at a byte that is no digit and with `InvalidLength`
/// where the number read so far, times ten plus the digit, overflows.
#[verifier::external_body]
fn u256_from_dec_str(s: &str) -> (r: Result<Amount, AmountParseError>)
    ensures
        match r {
            Ok(a) => amount_of_text(s@) == Ok::<nat, AmountParseError>(a@),
            Err(e) => amount_of_text(s@) == Err::<nat, AmountParseError>(e),
        },
{
    match U256::from_dec_str(s) {
        Ok(v) => Ok(Amount { limbs: v.0 }),
        Err(FromDecStrErr::InvalidCharacter) => Err(AmountParseError::InvalidCharacter),
        Err(FromDecStrErr::InvalidLength) => Err(AmountParseError::InvalidLength),
    }
}

/// The amount in decimal.
///
/// Formats with `U256`'s `Display`, which writes `0` for zero and else the
/// decimal digits from the most significant one, without padding.
#[verifier::external_body]
fn u256_to_string(a: &Amount) -> (r: String)
    ensures
        is_decimal_of(r@, a@),
{
    format!("{}", U256(a.limbs))
}

impl Amount {
    /// Zero.
    pub fn zero() -> (r: Amount)
        ensures
            r@ == 0,
    {
        Amount { limbs: [0, 0, 0, 0] }
    }

    /// The amount `v`.
    pub fn from_u64(v: u64) -> (r: Amount)
        ensures
            r@ == v,
    {
        Amount { limbs: [v, 0, 0, 0] }
    }

    /// Whether the amount is zero.
    pub fn is_zero(&self) -> (r: bool)
        ensures
            r == (self@ == 0),
    {
        self.limbs[0] == 0 && self.limbs[1] == 0 && self.limbs[2] == 0 && self.limbs[3] == 0
    }

    /// Whether the amount is less than `other`.
    pub fn lt(&self, other: &Amount) -> (r: bool)
        ensures
            r == (self@ < other@),
    {
        if self.limbs[3] != other.limbs[3] {
            self.limbs[3] < other.limbs[3]
        } else if self.limbs[2] != other.limbs[2] {
            self.limbs[2] < other.limbs[2]
        } else if self.limbs[1] != other.limbs[1] {
            self.limbs[1] < other.limbs[1]
        } else {
            self.limbs[0] < other.limbs[0]
        }
    }

    /// Whether the two amounts are the same number.
    pub fn same(&self, other: &Amount) -> (r: bool)
        ensures
            r == (self@ == other@),
    {
        self.limbs[0] == other.limbs[0] && self.limbs[1] == other.limbs[1] && self.limbs[2]
            == other.limbs[2] && self.limbs[3] == other.limbs[3]
    }

    /// The product of the two amounts, or `None` where it is 2^256 or more.
    pub fn checked_mul(&self, other: &Amount) -> (r: Option<Amount>)
        ensures
            match r {
                Some(p) => p@ == self@ * other@,
                None => self@ * other@ >= amount_limit(),
            },
    {
        u256_checked_mul(self, other)
    }

    /// The sum of the two amounts, or `None` where it is 2^256 or more.
    pub fn checked_add(&self, other: &Amount) -> (r: Option<Amount>)
        ensures
            match r {
                Some(s) => s@ == self@ + other@,
                None => self@ + other@ >= amount_limit(),
            },
    {
        u256_checked_add(self, other)
    }

    /// The quotient and the remainder by `other`, or `None` where `other` is
    /// zero.
    pub fn checked_div_rem(&self, other: &Amount) -> (r: Option<(Amount, Amount)>)
        ensures
            match r {
                Some(qr) => other@ != 0 && qr.0@ == self@ / other@ && qr.1@ == self@ % other@,
                None => other@ == 0,
            },
    {
        if other.is_zero() {
            None
        } else {
            Some(u256_div_mod(self, other))
        }
    }

    /// Ten to the power `n`, or `None` where it is 2^256 or more.
    pub fn exp10(n: usize) -> (r: Option<Amount>)
        ensures
            match r {
                Some(p) => p@ == pow10(n as nat),
                None => pow10(n as nat) >= amount_limit(),
            },
    {
        if n <= 77 {
            Some(u256_exp10(n))
        } else {
            proof {
                lemma_pow10_78();
                lemma_pow10_monotonic(78, n as nat);
            }
            None
        }
    }

    /// Reads an amount written in decimal.
    pub fn from_dec_str(text: &str) -> (r: Result<Amount, AmountParseError>)
        ensures
            match r {
                Ok(a) => amount_of_text(text@) == Ok::<nat, AmountParseError>(a@),
                Err(e) => amount_of_text(text@) == Err::<nat, AmountParseError>(e),
            },
    {
        u256_from_dec_str(text)
    }

    /// The amount written in decimal.
    pub fn to_dec_string(&self) -> (r: String)
        ensures
            is_decimal_of(r@, self@),
    {
        u256_to_string(self)
    }
}

/// A larger exponent gives a power of ten that is no smaller.
pub proof fn lemma_pow10_monotonic(a: nat, b: nat)
    requires
        a <= b,
    ensures
        pow10(a) <= pow10(b),
        pow10(a) >= 1,
    decreases b,
{
    if a < b {
        lemma_pow10_monotonic(a, (b - 1) as nat);
    } else if a > 0 {
        lemma_pow10_monotonic((a - 1) as nat, (a - 1) as nat);
    }
}

/// The power of ten of a sum is the product of the powers.
pub proof fn lemma_pow10_adds(a: nat, b: nat)
    ensures
        pow10(a + b) == pow10(a) * pow10(b),
    decreases a,
{
    if a == 0 {
        assert(pow10(0) == 1);
        assert(pow10(b) == 1 * pow10(b));
    } else {
        lemma_pow10_adds((a - 1) as nat, b);
        assert(pow10(a + b) == 10 * pow10((a - 1 + b) as nat));
        assert(10 * (pow10((a - 1) as nat) * pow10(b)) == (10 * pow10((a - 1) as nat)) * pow10(b))
            by (nonlinear_arith);
    }
}

/// 10^13, 10^26, 10^39 and 10^78 as numbers.
pub proof fn lemma_pow10_78()
    ensures
        pow10(13) == 10_000_000_000_000nat,
        pow10(26) == 100_000_000_000_000_000_000_000_000nat,
        pow10(39) == 1_000_000_000_000_000_000_000_000_000_000_000_000_000nat,
        pow10(78)
            == 1_000_000_000_000_000_000_000_000_000_000_000_000_000_000_000_000_000_000_000_000_000_000_000_000_000_000nat,
        pow10(78) >= amount_limit(),
{
    reveal_with_fuel(pow10, 14);
    assert(pow10(13) == 10_000_000_000_000nat);
    lemma_pow10_adds(13, 13);
    lemma_pow10_adds(26, 13);
    lemma_pow10_adds(39, 39);
    let a = pow10(39);
    assert(a * a
        == 1_000_000_000_000_000_000_000_000_000_000_000_000_000_000_000_000_000_000_000_000_000_000_000_000_000_000nat)
        by (nonlinear_arith)
        requires
            a == 1_000_000_000_000_000_000_000_000_000_000_000_000_000nat,
    ;
}

} // verus!
