use rust_decimal::Decimal;
use vstd::prelude::*;

verus! {

/// Number of fractional decimal digits kept for every monetary amount.
pub const PRECISION: u32 = 4;

/// Largest magnitude of a decimal mantissa: 96 bits.
pub const MAX_MANTISSA: i128 = 0xFFFF_FFFF_FFFF_FFFF_FFFF_FFFF;

/// Largest scale (number of fractional digits) a decimal can carry.
pub const MAX_SCALE: u32 = 28;

/// A monetary amount in fixed point: a whole number of ten-thousandths.
#[derive(Clone, Copy, Debug, PartialEq, Eq, Structural)]
pub struct Amount {
    pub units: i128,
}

impl Amount {
    /// The amount as a number of ten-thousandths.
    pub open spec fn value(self) -> int {
        self.units as int
    }

    pub fn zero() -> (r: Amount)
        ensures
            r.value() == 0,
    {
        Amount { units: 0 }
    }

    pub fn from_units(units: i128) -> (r: Amount)
        ensures
            r.units == units,
    {
        Amount { units }
    }
}

pub open spec fn pow10(n: nat) -> int
    decreases n,
{
    if n == 0 {
        1
    } else {
        10 * pow10((n - 1) as nat)
    }
}

/// `m / 10^k` rounded to a whole number, a tie going to the even neighbour.
pub open spec fn round_half_even(m: int, k: nat) -> int {
    let p = pow10(k);
    let a = if m < 0 {
        -m
    } else {
        m
    };
    let q = a / p;
    let r = a % p;
    let q2 = if 2 * r > p || (2 * r == p && q % 2 == 1) {
        q + 1
    } else {
        q
    };
    if m < 0 {
        -q2
    } else {
        q2
    }
}

/// The mantissa of `m * 10^-scale` rounded to at most `dp` fractional digits.
pub open spec fn rounded_mantissa(m: int, scale: nat, dp: nat) -> int {
    if scale <= dp {
        m
    } else {
        round_half_even(m, (scale - dp) as nat)
    }
}

/// Ten-thousandths of the decimal `m * 10^-scale`, rounded to four places.
pub open spec fn units_of(m: int, scale: nat) -> int {
    if scale <= 4 {
        m * pow10((4 - scale) as nat)
    } else {
        round_half_even(m, (scale - 4) as nat)
    }
}

/// Mantissa and scale of the decimal that a text spells exactly, if it spells one.
pub uninterp spec fn decimal_text_parts(s: Seq<char>) -> Option<(i128, u32)>;

/// The amount a text spells, rounded to four fractional digits.
pub open spec fn amount_of_text(s: Seq<char>) -> Option<Amount> {
    match decimal_text_parts(s) {
        Some((m, e)) => Some(Amount { units: units_of(m as int, e as nat) as i128 }),
        None => None,
    }
}

/// Relies on rust_decimal's `Decimal::from_str_exact`: parses a decimal
/// without losing digits; a decimal's mantissa has 96 bits and its scale is
/// at most 28.
#[verifier::external_body]
fn parse_decimal_parts(s: &str) -> (r: Option<(i128, u32)>)
    ensures
        r == decimal_text_parts(s@),
        r matches Some((m, e)) ==> -MAX_MANTISSA <= m <= MAX_MANTISSA && e <= MAX_SCALE,
{
    match Decimal::from_str_exact(s) {
        Ok(d) => Some((d.mantissa(), d.scale())),
        Err(_) => None,
    }
}

/// Relies on rust_decimal's `Decimal::round_dp`: a value with at most `dp`
/// fractional digits comes back as it was; otherwise the mantissa is divided
/// by a power of ten and rounded half to even, and the scale becomes `dp`.
#[verifier::external_body]
fn round_dp_parts(mantissa: i128, scale: u32, dp: u32) -> (r: (i128, u32))
    requires
        -MAX_MANTISSA <= mantissa <= MAX_MANTISSA,
        scale <= MAX_SCALE,
    ensures
        r.0 == rounded_mantissa(mantissa as int, scale as nat, dp as nat),
        r.1 == if scale <= dp {
            scale
        } else {
            dp
        },
        -MAX_MANTISSA <= r.0 <= MAX_MANTISSA,
{
    let d = Decimal::from_i128_with_scale(mantissa, scale).round_dp(dp);
    (d.mantissa(), d.scale())
}

/// The amount `mantissa * 10^-scale`, rounded to four fractional digits.
pub fn amount_from_parts(mantissa: i128, scale: u32) -> (r: Amount)
    requires
        -MAX_MANTISSA <= mantissa <= MAX_MANTISSA,
        scale <= MAX_SCALE,
    ensures
        r.value() == units_of(mantissa as int, scale as nat),
{
    let (m, e) = round_dp_parts(mantissa, scale, PRECISION);
    proof {
        reveal_with_fuel(pow10, 5);
    }
    let units: i128 = if e == 0 {
        m * 10000
    } else if e == 1 {
        m * 1000
    } else if e == 2 {
        m * 100
    } else if e == 3 {
        m * 10
    } else {
        m
    };
    Amount { units }
}

/// Parses a decimal text into an amount, rounding it to four fractional
/// digits; `None` where the text is no decimal.
pub fn parse_amount(s: &str) -> (r: Option<Amount>)
    ensures
        r == amount_of_text(s@),
{
    match parse_decimal_parts(s) {
        Some((m, e)) => Some(amount_from_parts(m, e)),
        None => None,
    }
}

} // verus!
