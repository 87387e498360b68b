//! Temperatures as fixed-point numbers, read from decimal numerals.
//!
//! A temperature is kept as a whole number of units of 10^-18 degree, between
//! -10^36 and 10^36 units. Reading and converting saturate at these bounds.

use crate::numeral::{
    lemma_pow10_constants, lemma_pow10_grows, numeral, pow10, take_apart, Numeral,
};
use crate::text::chars_of;
use vstd::prelude::*;

verus! {

/// The units in one degree: 10^18.
pub const UNIT: i128 = 1_000_000_000_000_000_000;

/// The most units that a temperature holds: 10^36.
pub const LIMIT: i128 = 1_000_000_000_000_000_000_000_000_000_000_000_000;

/// `significand` times ten to the power `shift`, cut off toward zero and at
/// the limit.
pub open spec fn scaled(significand: nat, shift: int) -> int {
    let exact: int = if shift >= 0 {
        (significand * pow10(shift as nat)) as int
    } else {
        significand as int / pow10((-shift) as nat) as int
    };
    if exact > LIMIT {
        LIMIT as int
    } else {
        exact
    }
}

impl Numeral {
    /// The power of ten that turns the significand into units.
    pub open spec fn shift(self) -> int {
        (if self.exponent_negative {
            -(self.exponent as int)
        } else {
            self.exponent as int
        }) - self.fraction_digits + 18
    }

    /// The units that the numeral stands for.
    pub open spec fn units(self) -> int {
        if self.negative {
            -scaled(self.significand, self.shift())
        } else {
            scaled(self.significand, self.shift())
        }
    }
}

/// The units that `s` stands for, where it is a numeral short enough to be
/// read.
pub open spec fn reading(s: Seq<char>) -> Option<int> {
    match numeral(s) {
        Some(n) => if n.readable() {
            Some(n.units())
        } else {
            None
        },
        None => None,
    }
}

/// `units` cut off at the limit on both sides.
pub open spec fn saturated(units: int) -> int {
    if units > LIMIT {
        LIMIT as int
    } else if units < -LIMIT {
        -LIMIT as int
    } else {
        units
    }
}

/// Degrees Celsius in degrees Fahrenheit, both in units: nine fifths and
/// thirty-two degrees more, rounded down to a unit and cut off at the limit.
pub open spec fn fahrenheit_units(celsius: int) -> int {
    saturated(celsius * 9 / 5 + 32 * UNIT)
}

/// The whole degrees in `units`, cut off toward zero, and at the bounds of
/// `i32`.
pub open spec fn whole_degrees(units: int) -> int {
    let whole = if units >= 0 {
        units / (UNIT as int)
    } else {
        -((-units) / (UNIT as int))
    };
    if whole > i32::MAX {
        i32::MAX as int
    } else if whole < i32::MIN {
        i32::MIN as int
    } else {
        whole
    }
}

/// What the unit and the limit are as powers of ten.
pub proof fn lemma_unit_and_limit()
    ensures
        pow10(18) == UNIT,
        pow10(36) == LIMIT,
        pow10(37) == 10 * LIMIT,
        pow10(38) == 100 * LIMIT,
        pow10(38) < u128::MAX,
{
    lemma_pow10_constants();
}

/// Ten to the power `k`.
fn power_of_ten(k: usize) -> (p: u128)
    requires
        k <= 38,
    ensures
        p == pow10(k as nat),
{
    let mut p: u128 = 1;
    let mut i: usize = 0;
    while i < k
        invariant
            0 <= i <= k <= 38,
            p == pow10(i as nat),
        decreases k - i,
    {
        proof {
            lemma_pow10_grows((i + 1) as nat, 38);
            lemma_unit_and_limit();
        }
        p = p * 10;
        i += 1;
    }
    p
}

/// `significand` times ten to the power `shift`, cut off toward zero and at
/// the limit.
fn scale(significand: u128, shift: i128) -> (m: u128)
    requires
        significand < pow10(38),
    ensures
        m == scaled(significand as nat, shift as int),
        m <= LIMIT,
{
    proof {
        lemma_unit_and_limit();
    }
    let limit: u128 = LIMIT as u128;
    if significand == 0 {
        proof {
            let p = pow10(
                (if shift >= 0 {
                    shift as int
                } else {
                    -shift as int
                }) as nat,
            );
            lemma_pow10_grows(0, (if shift >= 0 {
                shift as int
            } else {
                -shift as int
            }) as nat);
            assert(0 * p == 0) by (nonlinear_arith);
            assert(0int / (p as int) == 0) by (nonlinear_arith)
                requires
                    p > 0,
            ;
        }
        0
    } else if shift > 36 {
        proof {
            let p = pow10(shift as nat);
            lemma_pow10_grows(37, shift as nat);
            assert(significand * p >= p) by (nonlinear_arith)
                requires
                    significand >= 1,
                    p >= 0,
            ;
        }
        limit
    } else if shift >= 0 {
        proof {
            lemma_pow10_grows(shift as nat, 36);
        }
        let p = power_of_ten(shift as usize);
        let most = limit / p;
        if significand > most {
            proof {
                assert(significand * p > limit) by (nonlinear_arith)
                    requires
                        significand >= most + 1,
                        most == limit / p,
                        p > 0,
                ;
            }
            limit
        } else {
            proof {
                assert(significand * p <= limit) by (nonlinear_arith)
                    requires
                        significand <= most,
                        most == limit / p,
                        p > 0,
                ;
            }
            significand * p
        }
    } else if shift <= -38 {
        proof {
            let p = pow10((-shift) as nat);
            lemma_pow10_grows(38, (-shift) as nat);
            assert(significand as int / p as int == 0) by (nonlinear_arith)
                requires
                    0 <= significand < p,
            ;
        }
        0
    } else {
        let p = power_of_ten((-shift) as usize);
        proof {
            lemma_pow10_grows(0, (-shift) as nat);
        }
        let exact = significand / p;
        if exact > limit {
            limit
        } else {
            exact
        }
    }
}

/// A temperature, kept in units of 10^-18 degree.
#[derive(Clone, Copy, Debug)]
pub struct Temperature {
    units: i128,
}

impl Temperature {
    #[verifier::type_invariant]
    spec fn within_limit(self) -> bool {
        -LIMIT <= self.units <= LIMIT
    }

    /// The temperature in units of 10^-18 degree.
    pub closed spec fn units(self) -> int {
        self.units as int
    }

    /// The temperature of so many whole degrees.
    pub fn from_degrees(degrees: i32) -> (t: Temperature)
        ensures
            t.units() == degrees * UNIT,
    {
        Temperature { units: (degrees as i128) * UNIT }
    }

    /// Reads a temperature from a decimal numeral such as `15`, `-3.9` or
    /// `1.5e-7`. The significand may have up to 38 digits and the exponent up
    /// to 4; digits below a unit are dropped, and a number beyond the limit is
    /// read as the limit. Anything else is refused.
    pub fn read(text: &str) -> (r: Option<Temperature>)
        ensures
            match reading(text@) {
                Some(units) => r matches Some(t) && t.units() == units,
                None => r is None,
            },
    {
        let chars = chars_of(text);
        match take_apart(&chars) {
            Some(parts) => {
                let signed: i128 = if parts.exponent_negative {
                    -(parts.exponent as i128)
                } else {
                    parts.exponent as i128
                };
                let shift: i128 = signed - (parts.fraction_digits as i128) + 18;
                let magnitude = scale(parts.significand, shift);
                let units: i128 = if parts.negative {
                    -(magnitude as i128)
                } else {
                    magnitude as i128
                };
                Some(Temperature { units })
            },
            None => None,
        }
    }

    /// The temperature in degrees Fahrenheit, where this one is in degrees
    /// Celsius. It is worked out from this temperature at every call.
    pub fn fahrenheit(&self) -> (f: Temperature)
        ensures
            f.units() == fahrenheit_units(self.units()),
    {
        proof {
            use_type_invariant(self);
        }
        let nine: i128 = self.units * 9;
        let fifth: i128 = if nine >= 0 {
            ((nine as u128) / 5) as i128
        } else {
            -(((((-nine) as u128) + 4) / 5) as i128)
        };
        let exact: i128 = fifth + 32 * UNIT;
        let units: i128 = if exact > LIMIT {
            LIMIT
        } else if exact < -LIMIT {
            -LIMIT
        } else {
            exact
        };
        Temperature { units }
    }

    /// The whole degrees of the temperature: what is behind the point is
    /// dropped, and a number that `i32` cannot hold becomes its nearest bound.
    pub fn whole(&self) -> (w: i32)
        ensures
            w == whole_degrees(self.units()),
    {
        proof {
            use_type_invariant(self);
        }
        let unit: u128 = UNIT as u128;
        if self.units >= 0 {
            let whole: u128 = (self.units as u128) / unit;
            if whole > i32::MAX as u128 {
                i32::MAX
            } else {
                whole as i32
            }
        } else {
            let whole: u128 = ((-self.units) as u128) / unit;
            if whole > i32::MAX as u128 {
                i32::MIN
            } else {
                -(whole as i32)
            }
        }
    }
}

} // verus!
