//! Decimal numbers with six fractional digits, held as a count of millionths.
//!
//! Every quantity the scoring rules read or produce (scores, percentages,
//! dollar amounts) is a `Decimal`. Arithmetic on them is exact integer
//! arithmetic on millionths; where a rule divides, the quotient is rounded
//! towards negative infinity, and where a result would leave the range of the
//! type it stops at the nearest end of that range.

use vstd::prelude::*;
use crate::text::{chars_of, find_char, first_index_of};

verus! {

/// Millionths in one whole unit.
pub const MICROS_PER_UNIT: i64 = 1_000_000;

/// A decimal number with six fractional digits.
#[derive(Debug, Clone, Copy, PartialEq, Eq, PartialOrd, Ord, Hash, Structural)]
pub struct Decimal {
    /// The number, in millionths.
    pub micros: i64,
}

impl View for Decimal {
    type V = int;

    /// The number in millionths, as a mathematical integer.
    open spec fn view(&self) -> int {
        self.micros as int
    }
}

/// `x` brought into the range of a `Decimal`.
pub open spec fn saturate(x: int) -> int {
    if x < i64::MIN as int {
        i64::MIN as int
    } else if x > i64::MAX as int {
        i64::MAX as int
    } else {
        x
    }
}

/// `x` brought into `[lo, hi]`.
pub open spec fn clamp(x: int, lo: int, hi: int) -> int {
    if x < lo {
        lo
    } else if x > hi {
        hi
    } else {
        x
    }
}

/// Whether `c` is one of the ten decimal digits.
pub open spec fn is_digit(c: char) -> bool {
    '0' <= c && c <= '9'
}

/// The number a decimal digit stands for.
pub open spec fn digit_value(c: char) -> nat {
    (c as int - '0' as int) as nat
}

/// Whether every character of `s` is a decimal digit.
pub open spec fn all_digits(s: Seq<char>) -> bool {
    forall|i: int| 0 <= i < s.len() ==> is_digit(#[trigger] s[i])
}

/// The number that a run of decimal digits writes, most significant first.
pub open spec fn digits_value(s: Seq<char>) -> nat
    decreases s.len(),
{
    if s.len() == 0 {
        0
    } else {
        digits_value(s.drop_last()) * 10 + digit_value(s.last())
    }
}

/// Ten to the power `n`.
pub open spec fn pow10(n: nat) -> nat
    decreases n,
{
    if n == 0 {
        1
    } else {
        10 * pow10((n - 1) as nat)
    }
}

/// The millionths written by the fractional digits `frac`: the first six
/// digits count, later ones are dropped.
pub open spec fn fraction_micros(frac: Seq<char>) -> nat {
    if frac.len() >= 6 {
        digits_value(frac.take(6))
    } else {
        digits_value(frac) * pow10((6 - frac.len()) as nat)
    }
}

/// The millionths written by an unsigned decimal text: digits, optionally a
/// point and more digits, with at least one digit on either side of the point.
/// `None` where the text is not of that form.
pub open spec fn unsigned_decimal_micros(body: Seq<char>) -> Option<nat> {
    let dot = first_index_of(body, '.');
    let whole = body.take(dot);
    let frac = if dot < body.len() {
        body.skip(dot + 1)
    } else {
        Seq::<char>::empty()
    };
    if all_digits(whole) && all_digits(frac) && whole.len() + frac.len() > 0 {
        Some(digits_value(whole) * 1_000_000 + fraction_micros(frac))
    } else {
        None
    }
}

/// The `Decimal` that a text writes, in millionths: an optional sign, then an
/// unsigned decimal. `None` where the text is not of that form or the number
/// is outside the range of the type.
pub open spec fn decimal_of_text(s: Seq<char>) -> Option<int> {
    if s.len() > 0 && s[0] == '-' {
        match unsigned_decimal_micros(s.skip(1)) {
            Some(m) => if m <= 0x8000_0000_0000_0000 {
                Some(-(m as int))
            } else {
                None
            },
            None => None,
        }
    } else {
        let body = if s.len() > 0 && s[0] == '+' {
            s.skip(1)
        } else {
            s
        };
        match unsigned_decimal_micros(body) {
            Some(m) => if m <= 0x7fff_ffff_ffff_ffff {
                Some(m as int)
            } else {
                None
            },
            None => None,
        }
    }
}

/// The `u64` that a text writes: an optional `+`, then one or more digits.
/// `None` where the text is not of that form or the number does not fit.
pub open spec fn u64_of_text(s: Seq<char>) -> Option<u64> {
    let body = if s.len() > 0 && s[0] == '+' {
        s.skip(1)
    } else {
        s
    };
    if body.len() > 0 && all_digits(body) && digits_value(body) <= u64::MAX {
        Some(digits_value(body) as u64)
    } else {
        None
    }
}

/// Appending a digit to a run multiplies its value by ten and adds the digit.
pub proof fn lemma_digits_value_push(s: Seq<char>, c: char)
    ensures
        digits_value(s.push(c)) == digits_value(s) * 10 + digit_value(c),
{
    assert(s.push(c).drop_last() =~= s);
}

/// The whole quotient of `a` by a positive `b`, rounded towards negative
/// infinity.
pub fn div_floor(a: i128, b: i128) -> (q: i128)
    requires
        b > 0,
        a > i128::MIN,
    ensures
        q == a as int / b as int,
{
    if a >= 0 {
        a / b
    } else {
        let n: i128 = -a;
        let t: i128 = n / b;
        let r: i128 = n % b;
        proof {
            assert(n == t * b + r && 0 <= r < b) by (nonlinear_arith)
                requires
                    n >= 0,
                    b > 0,
                    t == n as int / b as int,
                    r == n as int % b as int,
            ;
        }
        if r == 0 {
            proof {
                assert(a as int / b as int == -t) by (nonlinear_arith)
                    requires
                        a == -(t * b),
                        b > 0,
                ;
            }
            -t
        } else {
            proof {
                assert(a as int / b as int == -t - 1) by (nonlinear_arith)
                    requires
                        a == -(t * b + r),
                        0 < r < b,
                ;
                assert(t <= n) by (nonlinear_arith)
                    requires
                        n == t * b + r,
                        t >= 0,
                        b > 0,
                        r >= 0,
                ;
            }
            -t - 1
        }
    }
}

/// Whether `c` is a decimal digit.
pub fn char_is_digit(c: char) -> (r: bool)
    ensures
        r == is_digit(c),
{
    c >= '0' && c <= '9'
}

/// The number a decimal digit stands for.
pub fn char_digit_value(c: char) -> (d: u8)
    requires
        is_digit(c),
    ensures
        d == digit_value(c),
        d <= 9,
{
    if c == '0' {
        0
    } else if c == '1' {
        1
    } else if c == '2' {
        2
    } else if c == '3' {
        3
    } else if c == '4' {
        4
    } else if c == '5' {
        5
    } else if c == '6' {
        6
    } else if c == '7' {
        7
    } else if c == '8' {
        8
    } else {
        9
    }
}

/// Reads a run of digits. Gives their value where every character is a digit
/// and the value is at most `limit`; `None` otherwise.
fn read_digits(s: &[char], limit: u128) -> (r: Option<u128>)
    requires
        limit <= 0xffff_ffff_ffff_ffff_ffff,
    ensures
        match r {
            Some(v) => all_digits(s@) && v == digits_value(s@) && v <= limit,
            None => !all_digits(s@) || digits_value(s@) > limit,
        },
{
    let mut acc: u128 = 0;
    let mut over: bool = false;
    let mut i: usize = 0;
    while i < s.len()
        invariant
            i <= s.len(),
            limit <= 0xffff_ffff_ffff_ffff_ffff,
            all_digits(s@.take(i as int)),
            !over ==> acc == digits_value(s@.take(i as int)) && acc <= limit,
            over ==> digits_value(s@.take(i as int)) > limit,
        decreases s.len() - i,
    {
        let c: char = s[i];
        if !char_is_digit(c) {
            return None;
        }
        let d: u8 = char_digit_value(c);
        proof {
            assert(s@.take(i as int + 1) =~= s@.take(i as int).push(c));
            lemma_digits_value_push(s@.take(i as int), c);
        }
        if !over {
            let next: u128 = acc * 10 + d as u128;
            if next > limit {
                over = true;
            } else {
                acc = next;
            }
        }
        i = i + 1;
    }
    assert(s@.take(i as int) =~= s@);
    if over {
        None
    } else {
        Some(acc)
    }
}

/// Reads the digits after the decimal point, as millionths.
fn read_fraction(s: &[char]) -> (r: Option<u64>)
    ensures
        match r {
            Some(v) => all_digits(s@) && v == fraction_micros(s@) && v < 1_000_000,
            None => !all_digits(s@),
        },
{
    let mut acc: u64 = 0;
    let mut i: usize = 0;
    proof {
        lemma_pow10_values();
    }
    while i < s.len()
        invariant
            i <= s.len(),
            all_digits(s@.take(i as int)),
            i <= 6 ==> acc == digits_value(s@.take(i as int)) && acc < pow10(i as nat),
            i > 6 ==> acc == digits_value(s@.take(6)) && acc < 1_000_000,
            pow10(6) == 1_000_000,
        decreases s.len() - i,
    {
        let c: char = s[i];
        if !char_is_digit(c) {
            return None;
        }
        let d: u8 = char_digit_value(c);
        proof {
            assert(s@.take(i as int + 1) =~= s@.take(i as int).push(c));
            lemma_digits_value_push(s@.take(i as int), c);
            lemma_pow10_values();
        }
        if i < 6 {
            assert(pow10(i as nat) <= 100_000) by {
                lemma_pow10_values();
            }
            acc = acc * 10 + d as u64;
            assert(pow10((i + 1) as nat) == 10 * pow10(i as nat));
        }
        i = i + 1;
    }
    assert(s@.take(i as int) =~= s@);
    proof {
        lemma_pow10_values();
    }
    if i < 6 {
        let mut k: usize = i;
        let ghost base: nat = acc as nat;
        assert(base * pow10(0) == base) by (nonlinear_arith)
            requires
                pow10(0) == 1,
        ;
        while k < 6
            invariant
                i <= k <= 6,
                acc == base * pow10((k - i) as nat),
                base < pow10(i as nat),
                acc < pow10(k as nat),
            decreases 6 - k,
        {
            proof {
                lemma_pow10_values();
                assert(pow10((k + 1 - i) as nat) == 10 * pow10((k - i) as nat));
                assert(base * (10 * pow10((k - i) as nat)) == 10 * (base * pow10((k - i) as nat)))
                    by (nonlinear_arith);
            }
            acc = acc * 10;
            k = k + 1;
        }
    }
    Some(acc)
}

/// The first seven powers of ten.
pub proof fn lemma_pow10_values()
    ensures
        pow10(0) == 1,
        pow10(1) == 10,
        pow10(2) == 100,
        pow10(3) == 1_000,
        pow10(4) == 10_000,
        pow10(5) == 100_000,
        pow10(6) == 1_000_000,
{
    reveal_with_fuel(pow10, 8);
}

/// Reads an unsigned decimal, as millionths, where it is at most `limit`.
fn read_unsigned_decimal(s: &[char], limit: u128) -> (r: Option<u128>)
    requires
        limit <= 0x8000_0000_0000_0000,
    ensures
        match r {
            Some(v) => unsigned_decimal_micros(s@) == Some(v as nat) && v <= limit,
            None => match unsigned_decimal_micros(s@) {
                Some(m) => m > limit,
                None => true,
            },
        },
{
    let dot: usize = find_char(s, '.');
    let whole: &[char] = &s[0..dot];
    assert(whole@ =~= s@.take(dot as int));
    let start: usize = if dot < s.len() {
        dot + 1
    } else {
        dot
    };
    let frac: &[char] = &s[start..s.len()];
    proof {
        if dot < s.len() {
            assert(frac@ =~= s@.skip(dot as int + 1));
        } else {
            assert(frac@ =~= Seq::<char>::empty());
        }
    }
    let f: u64 = match read_fraction(frac) {
        Some(f) => f,
        None => {
            return None;
        },
    };
    match read_digits(whole, 0x8000_0000_0000_0000) {
        Some(w) => {
            if whole.len() + frac.len() == 0 {
                return None;
            }
            let total: u128 = w * 1_000_000 + f as u128;
            if total <= limit {
                Some(total)
            } else {
                None
            }
        },
        None => {
            proof {
                if all_digits(whole@) {
                    assert(digits_value(whole@) * 1_000_000 > limit) by (nonlinear_arith)
                        requires
                            digits_value(whole@) > 0x8000_0000_0000_0000,
                            limit <= 0x8000_0000_0000_0000,
                    ;
                }
            }
            None
        },
    }
}

/// Reads a `u64` written as an optional `+` and one or more digits.
pub fn parse_u64(s: &[char]) -> (r: Option<u64>)
    ensures
        r == u64_of_text(s@),
{
    let start: usize = if s.len() > 0 && s[0] == '+' {
        1
    } else {
        0
    };
    let body: &[char] = &s[start..s.len()];
    proof {
        if start == 1 {
            assert(body@ =~= s@.skip(1));
        } else {
            assert(body@ =~= s@);
        }
    }
    if body.len() == 0 {
        return None;
    }
    match read_digits(body, 0xffff_ffff_ffff_ffff) {
        Some(v) => Some(v as u64),
        None => None,
    }
}

impl Decimal {
    /// The decimal that is `micros` millionths.
    pub fn from_micros(micros: i64) -> (d: Decimal)
        ensures
            d@ == micros,
    {
        Decimal { micros }
    }

    /// The decimal that is the whole number `units`.
    pub fn from_units(units: i32) -> (d: Decimal)
        ensures
            d@ == units * 1_000_000,
    {
        Decimal { micros: units as i64 * MICROS_PER_UNIT }
    }

    /// The decimal nearest to `x` millionths: `x` itself where it is in range.
    pub fn saturating_from(x: i128) -> (d: Decimal)
        ensures
            d@ == saturate(x as int),
    {
        if x < i64::MIN as i128 {
            Decimal { micros: i64::MIN }
        } else if x > i64::MAX as i128 {
            Decimal { micros: i64::MAX }
        } else {
            Decimal { micros: x as i64 }
        }
    }

    /// Reads a decimal from its characters.
    pub fn parse_chars(s: &[char]) -> (r: Option<Decimal>)
        ensures
            match r {
                Some(d) => decimal_of_text(s@) == Some(d@),
                None => decimal_of_text(s@) is None,
            },
    {
        if s.len() > 0 && s[0] == '-' {
            let body: &[char] = &s[1..s.len()];
            assert(body@ =~= s@.skip(1));
            match read_unsigned_decimal(body, 0x8000_0000_0000_0000) {
                Some(m) => {
                    let v: i128 = -(m as i128);
                    Some(Decimal { micros: v as i64 })
                },
                None => None,
            }
        } else {
            let start: usize = if s.len() > 0 && s[0] == '+' {
                1
            } else {
                0
            };
            let body: &[char] = &s[start..s.len()];
            proof {
                if start == 1 {
                    assert(body@ =~= s@.skip(1));
                } else {
                    assert(body@ =~= s@);
                }
            }
            match read_unsigned_decimal(body, 0x7fff_ffff_ffff_ffff) {
                Some(m) => Some(Decimal { micros: m as i64 }),
                None => None,
            }
        }
    }

    /// Reads a decimal from a text such as `95.0`, `-0.25` or `+3`.
    pub fn parse(text: &str) -> (r: Option<Decimal>)
        ensures
            match r {
                Some(d) => decimal_of_text(text@) == Some(d@),
                None => decimal_of_text(text@) is None,
            },
    {
        let chars: Vec<char> = chars_of(text);
        Decimal::parse_chars(chars.as_slice())
    }
}

} // verus!
