//! Exact decimal amounts (volumes, prices, fees), held as an integer mantissa
//! and a count of decimal places.
use vstd::prelude::*;

verus! {

/// Largest number of decimal places that an amount may carry.
pub const MAX_SCALE: u32 = 28;

/// Ten to the power `n`.
pub open spec fn pow10(n: nat) -> int
    decreases n,
{
    if n == 0 {
        1
    } else {
        10 * pow10((n - 1) as nat)
    }
}

/// An exact decimal number `mantissa / 10^scale`.
///
/// Two amounts are `==` when mantissa and scale are both equal, so `1.0` and
/// `1.00` are different amounts of the same value; compare values with
/// [`Amount::le`].
#[derive(Clone, Copy, Debug, PartialEq, Eq, Structural)]
pub struct Amount {
    mantissa: i64,
    scale: u32,
}

impl View for Amount {
    type V = (int, nat);

    /// The mantissa and the number of decimal places.
    closed spec fn view(&self) -> (int, nat) {
        (self.mantissa as int, self.scale as nat)
    }
}

/// Relies on rust_decimal's `Decimal::new`, which builds `m / 10^s` exactly
/// (it panics only for `s > 28`), and on `PartialOrd for Decimal`, which
/// compares two decimals by their exact values.
#[verifier::external_body]
fn decimal_le(a_mantissa: i64, a_scale: u32, b_mantissa: i64, b_scale: u32) -> (r: bool)
    requires
        a_scale <= MAX_SCALE,
        b_scale <= MAX_SCALE,
    ensures
        r == (a_mantissa * pow10(b_scale as nat) <= b_mantissa * pow10(a_scale as nat)),
{
    rust_decimal::Decimal::new(a_mantissa, a_scale) <= rust_decimal::Decimal::new(b_mantissa, b_scale)
}

impl Amount {
    #[verifier::type_invariant]
    spec fn scale_in_range(self) -> bool {
        self.scale <= MAX_SCALE
    }

    /// Whether the value is greater than zero.
    pub open spec fn is_positive_spec(self) -> bool {
        self@.0 > 0
    }

    /// Whether the value is less than zero.
    pub open spec fn is_negative_spec(self) -> bool {
        self@.0 < 0
    }

    /// Whether the value of `self` is at most the value of `other`.
    pub open spec fn le_spec(self, other: Amount) -> bool {
        self@.0 * pow10(other@.1) <= other@.0 * pow10(self@.1)
    }

    /// The amount `mantissa / 10^scale`.
    pub fn new(mantissa: i64, scale: u32) -> (r: Amount)
        requires
            scale <= MAX_SCALE,
        ensures
            r@ == (mantissa as int, scale as nat),
    {
        Amount { mantissa, scale }
    }

    pub fn mantissa(&self) -> (r: i64)
        ensures
            r == self@.0,
    {
        self.mantissa
    }

    pub fn scale(&self) -> (r: u32)
        ensures
            r == self@.1,
    {
        self.scale
    }

    pub fn is_positive(&self) -> (r: bool)
        ensures
            r == self.is_positive_spec(),
    {
        self.mantissa > 0
    }

    pub fn is_negative(&self) -> (r: bool)
        ensures
            r == self.is_negative_spec(),
    {
        self.mantissa < 0
    }

    /// Whether the value of `self` is at most the value of `other`.
    pub fn le(&self, other: &Amount) -> (r: bool)
        ensures
            r == self.le_spec(*other),
    {
        proof {
            use_type_invariant(self);
            use_type_invariant(other);
        }
        decimal_le(self.mantissa, self.scale, other.mantissa, other.scale)
    }
}

} // verus!
