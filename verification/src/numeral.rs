//! Decimal numerals: what they are made of and what they stand for.

use crate::text::chars_of;
use vstd::prelude::*;

verus! {

/// The most digits that a significand may have, leading zeros included.
pub const SIGNIFICAND_DIGITS: usize = 38;

/// The most digits that an exponent may have, leading zeros included.
pub const EXPONENT_DIGITS: usize = 4;

/// Ten to the power `k`.
pub open spec fn pow10(k: nat) -> nat
    decreases k,
{
    if k == 0 {
        1
    } else {
        10 * pow10((k - 1) as nat)
    }
}

/// The digit that `c` writes, if it writes one.
pub open spec fn digit_of(c: char) -> Option<nat> {
    if c == '0' {
        Some(0)
    } else if c == '1' {
        Some(1)
    } else if c == '2' {
        Some(2)
    } else if c == '3' {
        Some(3)
    } else if c == '4' {
        Some(4)
    } else if c == '5' {
        Some(5)
    } else if c == '6' {
        Some(6)
    } else if c == '7' {
        Some(7)
    } else if c == '8' {
        Some(8)
    } else if c == '9' {
        Some(9)
    } else {
        None
    }
}

/// Where the run of digits that starts at `from` ends.
pub open spec fn digits_end(s: Seq<char>, from: int) -> int
    decreases s.len() - from,
{
    if 0 <= from < s.len() && digit_of(s[from]) is Some {
        digits_end(s, from + 1)
    } else {
        from
    }
}

/// The number that `start` becomes when the digits of `s` are written behind
/// it.
pub open spec fn value_from(start: nat, s: Seq<char>) -> nat
    decreases s.len(),
{
    if s.len() == 0 {
        start
    } else {
        value_from(start, s.drop_last()) * 10 + match digit_of(s.last()) {
            Some(d) => d,
            None => 0,
        }
    }
}

/// A decimal numeral, taken apart: a sign, the digits before and after the
/// point read as one number, and an exponent of ten.
pub struct Numeral {
    pub negative: bool,
    /// The digits before and after the point, read as one number.
    pub significand: nat,
    /// How many digits the significand has.
    pub significand_digits: nat,
    /// How many of them stand behind the point.
    pub fraction_digits: nat,
    pub exponent_negative: bool,
    /// The digits behind `e`, read as a number; zero where there is no `e`.
    pub exponent: nat,
    /// How many digits the exponent has.
    pub exponent_digits: nat,
}

/// Takes a numeral apart: an optional `-`, one or more digits, optionally a
/// point and one or more digits, optionally `e` or `E`, an optional sign and
/// one or more digits; and nothing else.
pub open spec fn numeral(s: Seq<char>) -> Option<Numeral> {
    let a: int = if s.len() > 0 && s[0] == '-' {
        1
    } else {
        0
    };
    let b = digits_end(s, a);
    let has_fraction = b < s.len() && s[b] == '.';
    let c = if has_fraction {
        b + 1
    } else {
        b
    };
    let d = digits_end(s, c);
    let has_exponent = d < s.len() && (s[d] == 'e' || s[d] == 'E');
    let has_sign = has_exponent && d + 1 < s.len() && (s[d + 1] == '-' || s[d + 1] == '+');
    let f = if has_sign {
        d + 2
    } else if has_exponent {
        d + 1
    } else {
        d
    };
    let g = digits_end(s, f);
    if a < b && (has_fraction ==> c < d) && (has_exponent ==> f < g) && g == s.len() {
        Some(
            Numeral {
                negative: a == 1,
                significand: value_from(value_from(0, s.subrange(a, b)), s.subrange(c, d)),
                significand_digits: ((b - a) + (d - c)) as nat,
                fraction_digits: (d - c) as nat,
                exponent_negative: has_sign && s[d + 1] == '-',
                exponent: value_from(0, s.subrange(f, g)),
                exponent_digits: (g - f) as nat,
            },
        )
    } else {
        None
    }
}

impl Numeral {
    /// Whether the numeral is short enough to be read.
    pub open spec fn readable(self) -> bool {
        self.significand_digits <= SIGNIFICAND_DIGITS && self.exponent_digits <= EXPONENT_DIGITS
    }
}

/// The integer that `s` stands for, where it is a numeral without a point and
/// without an exponent, short enough to be read, that `i64` holds.
pub open spec fn integer_reading(s: Seq<char>) -> Option<int> {
    match numeral(s) {
        Some(n) => {
            let value = if n.negative {
                -(n.significand as int)
            } else {
                n.significand as int
            };
            if n.readable() && n.fraction_digits == 0 && n.exponent_digits == 0 && i64::MIN
                <= value <= i64::MAX {
                Some(value)
            } else {
                None
            }
        },
        None => None,
    }
}

/// What some powers of ten are.
pub proof fn lemma_pow10_constants()
    ensures
        pow10(18) == 1_000_000_000_000_000_000,
        pow10(36) == 1_000_000_000_000_000_000_000_000_000_000_000_000,
        pow10(37) == 10_000_000_000_000_000_000_000_000_000_000_000_000,
        pow10(38) == 100_000_000_000_000_000_000_000_000_000_000_000_000,
        pow10(38) < u128::MAX,
{
    reveal_with_fuel(pow10, 20);
    assert(pow10(36) == pow10(18) * pow10(18)) by {
        lemma_pow10_adds(18, 18);
    }
    assert(pow10(18) * pow10(18) == 1_000_000_000_000_000_000_000_000_000_000_000_000)
        by (nonlinear_arith)
        requires
            pow10(18) == 1_000_000_000_000_000_000,
    ;
}

/// Powers of ten grow with the exponent.
pub proof fn lemma_pow10_grows(j: nat, k: nat)
    requires
        j <= k,
    ensures
        0 < pow10(j) <= pow10(k),
    decreases k,
{
    if k == 0 {
    } else if j == k {
        lemma_pow10_grows((j - 1) as nat, (k - 1) as nat);
    } else {
        lemma_pow10_grows(j, (k - 1) as nat);
    }
}

/// The smallest powers of ten that reading needs.
pub proof fn lemma_pow10_small()
    ensures
        pow10(0) == 1,
        pow10(4) == 10_000,
{
    reveal_with_fuel(pow10, 5);
}

/// Ten to a sum is the product of the powers.
pub proof fn lemma_pow10_adds(j: nat, k: nat)
    ensures
        pow10(j + k) == pow10(j) * pow10(k),
    decreases k,
{
    if k == 0 {
        assert(pow10(j) * 1 == pow10(j));
    } else {
        lemma_pow10_adds(j, (k - 1) as nat);
        assert(10 * (pow10(j) * pow10((k - 1) as nat)) == pow10(j) * (10 * pow10((k - 1) as nat)))
            by (nonlinear_arith);
    }
}

/// The digit that `c` writes, if it writes one.
pub fn digit_value(c: char) -> (d: Option<u8>)
    ensures
        match digit_of(c) {
            Some(v) => d == Some(v as u8),
            None => d is None,
        },
{
    if c == '0' {
        Some(0)
    } else if c == '1' {
        Some(1)
    } else if c == '2' {
        Some(2)
    } else if c == '3' {
        Some(3)
    } else if c == '4' {
        Some(4)
    } else if c == '5' {
        Some(5)
    } else if c == '6' {
        Some(6)
    } else if c == '7' {
        Some(7)
    } else if c == '8' {
        Some(8)
    } else if c == '9' {
        Some(9)
    } else {
        None
    }
}

/// Reads the run of digits that starts at `from`: where it ends, and the
/// number that `start`, which has `taken` digits, becomes with the run written
/// behind it. The number is exact as long as it has no more than 38 digits.
fn scan_digits(chars: &Vec<char>, from: usize, start: u128, taken: usize) -> (r: (usize, u128))
    requires
        from <= chars.len(),
        taken <= SIGNIFICAND_DIGITS,
        start < pow10(taken as nat),
    ensures
        r.0 == digits_end(chars@, from as int),
        from <= r.0 <= chars.len(),
        taken + (r.0 - from) <= SIGNIFICAND_DIGITS ==> r.1 == value_from(
            start as nat,
            chars@.subrange(from as int, r.0 as int),
        ) && r.1 < pow10((taken + (r.0 - from)) as nat),
{
    let mut i: usize = from;
    let mut value: u128 = start;
    while i < chars.len()
        invariant
            from <= i <= chars.len(),
            taken <= SIGNIFICAND_DIGITS,
            digits_end(chars@, from as int) == digits_end(chars@, i as int),
            taken + (i - from) <= SIGNIFICAND_DIGITS ==> value == value_from(
                start as nat,
                chars@.subrange(from as int, i as int),
            ) && value < pow10((taken + (i - from)) as nat),
        ensures
            from <= i <= chars.len(),
            i == digits_end(chars@, from as int),
            taken + (i - from) <= SIGNIFICAND_DIGITS ==> value == value_from(
                start as nat,
                chars@.subrange(from as int, i as int),
            ) && value < pow10((taken + (i - from)) as nat),
        decreases chars.len() - i,
    {
        match digit_value(chars[i]) {
            Some(d) => {
                if i - from < SIGNIFICAND_DIGITS - taken {
                    proof {
                        let k = (taken + (i - from)) as nat;
                        lemma_pow10_grows(k + 1, 38);
                        lemma_pow10_constants();
                        assert(chars@.subrange(from as int, i + 1).drop_last() =~= chars@.subrange(
                            from as int,
                            i as int,
                        ));
                    }
                    value = value * 10 + d as u128;
                }
                i += 1;
            },
            None => {
                break ;
            },
        }
    }
    (i, value)
}

/// A numeral that is short enough to be read, taken apart.
pub(crate) struct Parts {
    pub(crate) negative: bool,
    pub(crate) significand: u128,
    pub(crate) fraction_digits: usize,
    pub(crate) exponent_negative: bool,
    pub(crate) exponent: u128,
    pub(crate) exponent_digits: usize,
}

impl Parts {
    /// Whether these are the parts of `n`.
    pub(crate) open spec fn of(self, n: Numeral) -> bool {
        &&& self.negative == n.negative
        &&& self.significand == n.significand
        &&& self.significand < pow10(38)
        &&& self.fraction_digits == n.fraction_digits
        &&& self.exponent_negative == n.exponent_negative
        &&& self.exponent == n.exponent
        &&& self.exponent < 10_000
        &&& self.exponent_digits == n.exponent_digits
    }
}

/// Takes a numeral apart, and refuses what is no numeral or is too long.
pub(crate) fn take_apart(chars: &Vec<char>) -> (r: Option<Parts>)
    ensures
        match numeral(chars@) {
            Some(n) => if n.readable() {
                r matches Some(parts) && parts.of(n)
            } else {
                r is None
            },
            None => r is None,
        },
{
    let n = chars.len();
    let negative = n > 0 && chars[0] == '-';
    let a: usize = if negative {
        1
    } else {
        0
    };
    proof {
        lemma_pow10_small();
        lemma_pow10_grows(0, 38);
    }
    let (b, whole) = scan_digits(chars, a, 0, 0);
    if b == a {
        return None;
    }
    let has_fraction = b < n && chars[b] == '.';
    let c: usize = if has_fraction {
        b + 1
    } else {
        b
    };
    let fits = b - a <= SIGNIFICAND_DIGITS;
    let (d, significand) = if fits {
        scan_digits(chars, c, whole, b - a)
    } else {
        scan_digits(chars, c, 0, 0)
    };
    if has_fraction && d == c {
        return None;
    }
    let has_exponent = d < n && (chars[d] == 'e' || chars[d] == 'E');
    let has_sign = has_exponent && d + 1 < n && (chars[d + 1] == '-' || chars[d + 1] == '+');
    let f: usize = if has_sign {
        d + 2
    } else if has_exponent {
        d + 1
    } else {
        d
    };
    let (g, exponent) = scan_digits(chars, f, 0, 0);
    if (has_exponent && g == f) || g != n {
        return None;
    }
    if !fits || d - c > SIGNIFICAND_DIGITS - (b - a) || g - f > EXPONENT_DIGITS {
        return None;
    }
    proof {
        lemma_pow10_grows((g - f) as nat, 4);
        lemma_pow10_grows(((b - a) + (d - c)) as nat, 38);
    }
    Some(
        Parts {
            negative,
            significand,
            fraction_digits: d - c,
            exponent_negative: has_sign && chars[d + 1] == '-',
            exponent,
            exponent_digits: g - f,
        },
    )
}

/// Reads an integer from a decimal numeral such as `0`, `42` or `-7`.
/// Anything else is refused, and so is a number that `i64` does not hold.
pub fn read_integer(text: &str) -> (r: Option<i64>)
    ensures
        match integer_reading(text@) {
            Some(value) => r == Some(value as i64),
            None => r is None,
        },
{
    let chars = chars_of(text);
    match take_apart(&chars) {
        Some(parts) => {
            if parts.fraction_digits != 0 || parts.exponent_digits != 0 {
                None
            } else if parts.negative {
                if parts.significand <= 0x8000_0000_0000_0000 {
                    Some((-(parts.significand as i128)) as i64)
                } else {
                    None
                }
            } else if parts.significand <= 0x7fff_ffff_ffff_ffff {
                Some(parts.significand as i64)
            } else {
                None
            }
        },
        None => None,
    }
}

} // verus!
