//! Exact decimal amounts (balances and payment amounts).
//!
//! An [`Amount`] is the number `mantissa / 10^scale`, in the range of
//! `rust_decimal::Decimal`; parsing, addition and comparison are done by
//! that crate.
use vstd::prelude::*;
use vstd::arithmetic::power::pow;

verus! {

/// The largest magnitude of a mantissa (2^96 - 1).
pub const MAX_MANTISSA: i128 = 79228162514264337593543950335i128;

/// The largest number of decimal places.
pub const MAX_SCALE: u32 = 28u32;

/// A decimal amount: the number `mantissa / 10^scale`.
#[derive(Debug, Clone, Copy, PartialEq, Eq, Structural)]
pub struct Amount {
    pub mantissa: i128,
    pub scale: u32,
}

/// What `rust_decimal` reads from a string: `Ok((mantissa, scale))` or the
/// text of its parse error.
pub uninterp spec fn decimal_from_str(text: Seq<char>) -> Result<(int, int), Seq<char>>;

/// What `rust_decimal`'s checked addition gives for two amounts, as
/// `(mantissa, scale)`, or `None` where it overflows.
pub uninterp spec fn decimal_checked_add(
    a_mantissa: int,
    a_scale: int,
    b_mantissa: int,
    b_scale: int,
) -> Option<(int, int)>;

impl Amount {
    /// The amount lies in the range of a `rust_decimal::Decimal`.
    pub open spec fn wf(self) -> bool {
        &&& -MAX_MANTISSA <= self.mantissa <= MAX_MANTISSA
        &&& self.scale <= MAX_SCALE
    }

    /// `self` is numerically greater than `other`.
    pub open spec fn spec_gt(self, other: Amount) -> bool {
        self.mantissa * pow(10, other.scale as nat) > other.mantissa * pow(10, self.scale as nat)
    }

    pub open spec fn from_pair(pair: (int, int)) -> Amount {
        Amount { mantissa: pair.0 as i128, scale: pair.1 as u32 }
    }

    /// An amount from its mantissa and scale, if they are in range.
    pub fn new(mantissa: i128, scale: u32) -> (r: Option<Amount>)
        ensures
            r is Some <==> (Amount { mantissa, scale }).wf(),
            r matches Some(a) ==> a.mantissa == mantissa && a.scale == scale,
    {
        if -MAX_MANTISSA <= mantissa && mantissa <= MAX_MANTISSA && scale <= MAX_SCALE {
            Some(Amount { mantissa, scale })
        } else {
            None
        }
    }

    /// The amount zero, as `rust_decimal` writes it.
    pub fn zero() -> (r: Amount)
        ensures
            r.mantissa == 0,
            r.scale == 0,
            r.wf(),
    {
        Amount { mantissa: 0, scale: 0 }
    }

    /// Whether `self` is numerically greater than `other`.
    pub fn is_greater_than(&self, other: &Amount) -> (r: bool)
        requires
            self.wf(),
            other.wf(),
        ensures
            r == self.spec_gt(*other),
    {
        decimal_gt(self, other)
    }
}

/// The amount a string parses to, or the parse error's message.
pub open spec fn spec_parse_amount(text: Seq<char>) -> Result<Amount, Seq<char>> {
    match decimal_from_str(text) {
        Ok(pair) => Ok(Amount::from_pair(pair)),
        Err(msg) => Err(msg),
    }
}

/// The checked sum of two amounts.
pub open spec fn spec_add_amounts(a: Amount, b: Amount) -> Option<Amount> {
    match decimal_checked_add(a.mantissa as int, a.scale as int, b.mantissa as int, b.scale as int) {
        Some(pair) => Some(Amount::from_pair(pair)),
        None => None,
    }
}

/// Parses a decimal number with `<rust_decimal::Decimal as FromStr>::from_str`.
/// Claims that the result is the named `decimal_from_str` of the text, and that
/// a parsed amount is in the range of a `Decimal`.
#[verifier::external_body]
pub(crate) fn parse_decimal(text: &str) -> (r: Result<Amount, String>)
    ensures
        match decimal_from_str(text@) {
            Ok(pair) => r matches Ok(b) && b == Amount::from_pair(pair),
            Err(msg) => r matches Err(m) && m@ == msg,
        },
        r matches Ok(a) ==> a.wf(),
{
    match <rust_decimal::Decimal as std::str::FromStr>::from_str(text) {
        Ok(d) => Ok(Amount { mantissa: d.mantissa(), scale: d.scale() }),
        Err(e) => Err(e.to_string()),
    }
}

/// Adds two amounts with `rust_decimal::Decimal::checked_add`.  Claims that the
/// result is the named `decimal_checked_add` of the two amounts and that a sum
/// is in the range of a `Decimal`; `from_i128_with_scale` panics outside that
/// range, so both arguments must lie in it.
#[verifier::external_body]
pub(crate) fn add_decimals(a: &Amount, b: &Amount) -> (r: Option<Amount>)
    requires
        a.wf(),
        b.wf(),
    ensures
        match decimal_checked_add(
            a.mantissa as int,
            a.scale as int,
            b.mantissa as int,
            b.scale as int,
        ) {
            Some(pair) => r == Some(Amount::from_pair(pair)),
            None => r is None,
        },
        r matches Some(s) ==> s.wf(),
{
    let x = rust_decimal::Decimal::from_i128_with_scale(a.mantissa, a.scale);
    let y = rust_decimal::Decimal::from_i128_with_scale(b.mantissa, b.scale);
    x.checked_add(y).map(|d| Amount { mantissa: d.mantissa(), scale: d.scale() })
}

/// Compares two amounts with `>` on `rust_decimal::Decimal`, which orders
/// decimals by their numeric value.
#[verifier::external_body]
fn decimal_gt(a: &Amount, b: &Amount) -> (r: bool)
    requires
        a.wf(),
        b.wf(),
    ensures
        r == a.spec_gt(*b),
{
    let x = rust_decimal::Decimal::from_i128_with_scale(a.mantissa, a.scale);
    let y = rust_decimal::Decimal::from_i128_with_scale(b.mantissa, b.scale);
    x > y
}

} // verus!
