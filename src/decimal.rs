//! Fixed-point decimal numbers, held as a mantissa and a scale, whose
//! arithmetic is carried out by `rust_decimal`.
use crate::date::padded_text;
use crate::text::nat_text;
use rust_decimal::Decimal;
use vstd::prelude::*;

verus! {

/// Largest mantissa magnitude: 96 bits.
pub const MAX_MANTISSA: i128 = 0xFFFF_FFFF_FFFF_FFFF_FFFF_FFFF;

/// Largest number of fractional digits.
pub const MAX_SCALE: u32 = 28;

/// The number `mantissa / 10^scale`.
#[derive(Clone, Copy, Debug, PartialEq, Eq, Structural)]
pub struct Dec {
    pub mantissa: i128,
    pub scale: u32,
}

pub open spec fn pow10(n: nat) -> int
    decreases n,
{
    if n == 0 {
        1
    } else {
        10 * pow10((n - 1) as nat)
    }
}

/// Integer division of a non-negative `n` by a positive `d`, rounded to nearest,
/// halves away from zero.
pub open spec fn div_round_half_up(n: int, d: int) -> int {
    if (n % d) * 2 >= d {
        n / d + 1
    } else {
        n / d
    }
}

impl Dec {
    pub open spec fn wf(self) -> bool {
        -MAX_MANTISSA <= self.mantissa <= MAX_MANTISSA && self.scale <= MAX_SCALE
    }

    pub open spec fn is_zero_spec(self) -> bool {
        self.mantissa == 0
    }

    /// Three-way comparison of values: the sign of `self - other`.
    pub open spec fn cmp_spec(self, other: Dec) -> int {
        let l = self.mantissa * pow10(other.scale as nat);
        let r = other.mantissa * pow10(self.scale as nat);
        if l < r {
            -1
        } else if l == r {
            0
        } else {
            1
        }
    }

    /// Same value (not necessarily the same scale).
    pub open spec fn same_value(self, other: Dec) -> bool {
        self.cmp_spec(other) == 0
    }

    /// Rounded to `dp` fractional digits, halves away from zero; unchanged when it
    /// has no more than `dp` of them.
    pub open spec fn round_dp_spec(self, dp: u32) -> Dec {
        if self.scale <= dp {
            self
        } else {
            let d = pow10((self.scale - dp) as nat);
            Dec {
                mantissa: if self.mantissa < 0 {
                    -div_round_half_up(-self.mantissa, d)
                } else {
                    div_round_half_up(self.mantissa as int, d)
                } as i128,
                scale: dp,
            }
        }
    }

    /// The whole number `v`.
    pub open spec fn from_int_spec(v: i64) -> Dec {
        Dec { mantissa: v as i128, scale: 0 }
    }

    pub fn from_int(v: i64) -> (r: Dec)
        ensures
            r == Dec::from_int_spec(v),
            r.wf(),
    {
        Dec { mantissa: v as i128, scale: 0 }
    }

    pub fn zero() -> (r: Dec)
        ensures
            r == Dec::from_int_spec(0),
            r.wf(),
    {
        Dec { mantissa: 0, scale: 0 }
    }

    pub fn is_zero(&self) -> (r: bool)
        ensures
            r == self.is_zero_spec(),
    {
        self.mantissa == 0
    }

    /// Same value, whatever the scales.
    pub fn same_value_as(&self, other: &Dec) -> (r: bool)
        requires
            self.wf(),
            other.wf(),
        ensures
            r == self.same_value(*other),
    {
        compare(*self, *other) == 0
    }

    /// Reads a decimal text.
    pub fn parse(s: &str) -> (r: Option<Dec>)
        ensures
            r == decimal_of_text(s@),
            r matches Some(d) ==> d.wf(),
    {
        parse_decimal(s)
    }

    /// The product, or `None` on overflow.
    pub fn checked_mul(self, other: Dec) -> (r: Option<Dec>)
        requires
            self.wf(),
            other.wf(),
        ensures
            r == decimal_product(self, other),
            r matches Some(d) ==> d.wf(),
    {
        checked_mul(self, other)
    }

    /// The quotient, or `None` for a zero divisor or on overflow.
    pub fn checked_div(self, other: Dec) -> (r: Option<Dec>)
        requires
            self.wf(),
            other.wf(),
        ensures
            r == decimal_quotient(self, other),
            other.is_zero_spec() ==> r is None,
            r matches Some(d) ==> d.wf(),
    {
        checked_div(self, other)
    }

    /// Rounded to `dp` fractional digits, halves away from zero.
    pub fn round_dp(self, dp: u32) -> (r: Dec)
        requires
            self.wf(),
        ensures
            r == self.round_dp_spec(dp),
            r.wf(),
    {
        round_dp(self, dp)
    }

    /// The decimal text of the number.
    pub fn to_text(self) -> (r: String)
        requires
            self.wf(),
        ensures
            r@ == decimal_text(self),
    {
        decimal_to_text(self)
    }

    pub fn is_negative(&self) -> (r: bool)
        ensures
            r == (self.mantissa < 0),
    {
        self.mantissa < 0
    }
}

/// What `Decimal::from_str` gives for a text, when it accepts it.
pub uninterp spec fn decimal_of_text(s: Seq<char>) -> Option<Dec>;

/// What `Decimal::checked_mul` gives for two numbers.
pub uninterp spec fn decimal_product(a: Dec, b: Dec) -> Option<Dec>;

/// What `Decimal::checked_div` gives for two numbers.
pub uninterp spec fn decimal_quotient(a: Dec, b: Dec) -> Option<Dec>;

/// The text of a number: a minus sign when negative, the whole part's digits
/// ("0" when it is zero), then, when the scale is positive, a point and exactly
/// `scale` fractional digits.
pub open spec fn decimal_text(d: Dec) -> Seq<char> {
    let n = if d.mantissa < 0 {
        -d.mantissa
    } else {
        d.mantissa as int
    };
    let sign = if d.mantissa < 0 {
        seq!['-']
    } else {
        Seq::empty()
    };
    if d.scale == 0 {
        sign + nat_text(n as nat)
    } else {
        let p = pow10(d.scale as nat);
        sign + nat_text((n / p) as nat) + seq!['.'] + padded_text((n % p) as nat, d.scale as nat)
    }
}

/// Relies on `Decimal::from_str`: parses a decimal text into a valid number.
#[verifier::external_body]
pub(crate) fn parse_decimal(s: &str) -> (r: Option<Dec>)
    ensures
        r == decimal_of_text(s@),
        r matches Some(d) ==> d.wf(),
{
    <Decimal as std::str::FromStr>::from_str(s).ok().map(|d| Dec { mantissa: d.mantissa(), scale: d.scale() })
}

/// Relies on `Decimal::checked_mul`: the product, or `None` on overflow.
#[verifier::external_body]
pub(crate) fn checked_mul(a: Dec, b: Dec) -> (r: Option<Dec>)
    requires
        a.wf(),
        b.wf(),
    ensures
        r == decimal_product(a, b),
        r matches Some(d) ==> d.wf(),
{
    let x = Decimal::from_i128_with_scale(a.mantissa, a.scale);
    let y = Decimal::from_i128_with_scale(b.mantissa, b.scale);
    x.checked_mul(y).map(|d| Dec { mantissa: d.mantissa(), scale: d.scale() })
}

/// Relies on `Decimal::checked_div`: the quotient, `None` for a zero divisor or
/// on overflow.
#[verifier::external_body]
pub(crate) fn checked_div(a: Dec, b: Dec) -> (r: Option<Dec>)
    requires
        a.wf(),
        b.wf(),
    ensures
        r == decimal_quotient(a, b),
        b.is_zero_spec() ==> r is None,
        r matches Some(d) ==> d.wf(),
{
    let x = Decimal::from_i128_with_scale(a.mantissa, a.scale);
    let y = Decimal::from_i128_with_scale(b.mantissa, b.scale);
    x.checked_div(y).map(|d| Dec { mantissa: d.mantissa(), scale: d.scale() })
}

/// Relies on `Decimal::round_dp_with_strategy` with `MidpointAwayFromZero`.
#[verifier::external_body]
pub(crate) fn round_dp(a: Dec, dp: u32) -> (r: Dec)
    requires
        a.wf(),
    ensures
        r == a.round_dp_spec(dp),
        r.wf(),
{
    let x = Decimal::from_i128_with_scale(a.mantissa, a.scale);
    let d = x.round_dp_with_strategy(dp, rust_decimal::RoundingStrategy::MidpointAwayFromZero);
    Dec { mantissa: d.mantissa(), scale: d.scale() }
}

/// Relies on `Decimal`'s `Ord`: compares the numbers' values.
#[verifier::external_body]
pub(crate) fn compare(a: Dec, b: Dec) -> (r: i8)
    requires
        a.wf(),
        b.wf(),
    ensures
        r as int == a.cmp_spec(b),
{
    let x = Decimal::from_i128_with_scale(a.mantissa, a.scale);
    let y = Decimal::from_i128_with_scale(b.mantissa, b.scale);
    match x.cmp(&y) {
        std::cmp::Ordering::Less => -1,
        std::cmp::Ordering::Equal => 0,
        std::cmp::Ordering::Greater => 1,
    }
}

/// Relies on `Decimal`'s `Display`, through `to_string`: the mantissa's digits
/// with the point placed by the scale.
#[verifier::external_body]
pub(crate) fn decimal_to_text(a: Dec) -> (r: String)
    requires
        a.wf(),
    ensures
        r@ == decimal_text(a),
{
    Decimal::from_i128_with_scale(a.mantissa, a.scale).to_string()
}

} // verus!
