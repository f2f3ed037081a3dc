//! Exact decimal amounts: a signed 96-bit mantissa and a power-of-ten scale,
//! the value being `mantissa / 10^scale`.

use vstd::prelude::*;
use vstd::arithmetic::power::{lemma_pow0, pow};

verus! {

/// The largest mantissa in magnitude: 2^96 - 1.
pub const MAX_MANTISSA: i128 = 79228162514264337593543950335i128;

/// The largest scale.
pub const MAX_SCALE: u32 = 28u32;

/// Whether `mantissa` and `scale` describe a representable amount.
pub open spec fn representable(mantissa: int, scale: int) -> bool {
    &&& 0 <= scale <= MAX_SCALE
    &&& -MAX_MANTISSA <= mantissa <= MAX_MANTISSA
}

/// An exact decimal amount (a quantity or a price).
#[derive(Debug, Clone, Copy)]
pub struct DecimalValue {
    mantissa: i128,
    scale: u32,
}

impl DecimalValue {
    #[verifier::type_invariant]
    spec fn well_formed(self) -> bool {
        representable(self.mantissa as int, self.scale as int)
    }

    /// The mantissa of the amount.
    pub closed spec fn mantissa_spec(self) -> int {
        self.mantissa as int
    }

    /// The scale of the amount.
    pub closed spec fn scale_spec(self) -> int {
        self.scale as int
    }

    /// The amount is greater than zero.
    pub open spec fn is_positive(self) -> bool {
        self.mantissa_spec() > 0
    }

    /// The amount `mantissa / 10^scale`, when it is representable.
    pub fn from_parts(mantissa: i128, scale: u32) -> (r: Option<DecimalValue>)
        ensures
            r is Some <==> representable(mantissa as int, scale as int),
            r matches Some(d) ==> d.mantissa_spec() == mantissa && d.scale_spec() == scale,
    {
        if scale <= MAX_SCALE && -MAX_MANTISSA <= mantissa && mantissa <= MAX_MANTISSA {
            Some(DecimalValue { mantissa, scale })
        } else {
            None
        }
    }

    /// The amount `num / 10^scale`.
    pub fn new(num: i64, scale: u32) -> (r: DecimalValue)
        requires
            scale <= MAX_SCALE,
        ensures
            r.mantissa_spec() == num,
            r.scale_spec() == scale,
    {
        DecimalValue { mantissa: num as i128, scale }
    }

    /// The amount zero (scale zero).
    pub fn zero() -> (r: DecimalValue)
        ensures
            r.mantissa_spec() == 0,
            r.scale_spec() == 0,
    {
        DecimalValue { mantissa: 0, scale: 0 }
    }

    pub fn mantissa(&self) -> (m: i128)
        ensures
            m == self.mantissa_spec(),
    {
        self.mantissa
    }

    pub fn scale(&self) -> (s: u32)
        ensures
            s == self.scale_spec(),
    {
        self.scale
    }

    /// Whether the amount is zero or less.
    pub fn is_at_most_zero(&self) -> (r: bool)
        ensures
            r == !self.is_positive(),
    {
        let zero = DecimalValue::zero();
        let r = decimal_le(self, &zero);
        proof {
            lemma_pow0(10);
            assert(self.mantissa_spec() * pow(10, 0) == self.mantissa_spec());
            assert(zero.mantissa_spec() * pow(10, self.scale_spec() as nat) == 0);
        }
        r
    }
}

/// The amount `a` is at most the amount `b`, comparing their exact values
/// `mantissa / 10^scale` (so `1.0` and `1.00` are equal).
pub open spec fn value_at_most(a: DecimalValue, b: DecimalValue) -> bool {
    a.mantissa_spec() * pow(10, b.scale_spec() as nat) <= b.mantissa_spec() * pow(10, a.scale_spec() as nat)
}

/// Builds both amounts with `rust_decimal::Decimal::from_i128_with_scale`
/// and compares them with `<=`.  Trusted: the crate compares decimals by
/// their exact values (`cmp_impl` settles signs and zero first, then brings
/// both to the larger scale before comparing magnitudes).  The constructor
/// panics only outside the representable range, which no `DecimalValue`
/// leaves.
#[verifier::external_body]
fn decimal_le(a: &DecimalValue, b: &DecimalValue) -> (r: bool)
    ensures
        r == value_at_most(*a, *b),
{
    rust_decimal::Decimal::from_i128_with_scale(a.mantissa, a.scale)
        <= rust_decimal::Decimal::from_i128_with_scale(b.mantissa, b.scale)
}

} // verus!
