//! A fixed-point decimal number in the shape of `rust_decimal::Decimal`: a
//! 96-bit signed mantissa and a decimal scale of at most 28.

use vstd::prelude::*;
use vstd::arithmetic::power::*;
use vstd::arithmetic::mul::*;
use crate::valuation::{pow10, pow10_i128, lemma_pow10_values};

verus! {

/// The largest mantissa magnitude that a decimal holds: `2^96 - 1`.
pub const MAX_I128_REPR: i128 = 0x0000_0000_FFFF_FFFF_FFFF_FFFF_FFFF_FFFF;

/// The largest scale that a decimal holds.
pub const MAX_SCALE: u32 = 28;

/// Whether a mantissa and a scale are within the limits of a decimal.
pub open spec fn representable(mantissa: int, scale: int) -> bool {
    &&& 0 <= scale <= MAX_SCALE
    &&& -MAX_I128_REPR <= mantissa <= MAX_I128_REPR
}

/// The mathematical content of a decimal: the number `mantissa / 10^scale`,
/// written at a given scale.
pub struct DecimalModel {
    pub mantissa: int,
    pub scale: nat,
}

impl DecimalModel {
    /// Within the limits of a decimal.
    pub open spec fn wf(self) -> bool {
        representable(self.mantissa, self.scale as int)
    }

    /// Both stand for the same rational number, whatever their scales.
    pub open spec fn same_value(self, other: DecimalModel) -> bool {
        self.mantissa * pow10(other.scale) == other.mantissa * pow10(self.scale)
    }
}

/// Why a mantissa and scale do not make a decimal.
#[derive(Debug, Clone, Copy, PartialEq, Eq, Structural)]
pub enum DecimalError {
    /// The scale is above `MAX_SCALE`.
    ScaleExceedsMaximumPrecision(u32),
    /// The mantissa is above `MAX_I128_REPR`.
    ExceedsMaximumPossibleValue,
    /// The mantissa is below `-MAX_I128_REPR`.
    LessThanMinimumPossibleValue,
}

/// The error for a mantissa and scale that do not make a decimal; the scale
/// is checked first, then the upper and the lower bound.
pub open spec fn decimal_error(mantissa: int, scale: u32) -> DecimalError {
    if scale > MAX_SCALE {
        DecimalError::ScaleExceedsMaximumPrecision(scale)
    } else if mantissa > MAX_I128_REPR {
        DecimalError::ExceedsMaximumPossibleValue
    } else {
        DecimalError::LessThanMinimumPossibleValue
    }
}

/// A decimal number `mantissa / 10^scale`.
#[derive(Debug, Clone, Copy)]
pub struct Decimal {
    mantissa: i128,
    scale: u32,
}

impl View for Decimal {
    type V = DecimalModel;

    closed spec fn view(&self) -> DecimalModel {
        DecimalModel { mantissa: self.mantissa as int, scale: self.scale as nat }
    }
}

/// Builds a `rust_decimal::Decimal` from `num` and `scale` with
/// `Decimal::try_from_i128_with_scale`, and reads back its mantissa and scale.
///
/// Trusted: in the source, `try_from_i128_with_scale` fails exactly when the
/// scale is above 28 or the magnitude of `num` is above `2^96 - 1`, and
/// otherwise stores them so that `mantissa()` and `scale()` give them back.
#[verifier::external_body]
fn checked_decimal_parts(num: i128, scale: u32) -> (parts: Option<(i128, u32)>)
    ensures
        parts is Some <==> representable(num as int, scale as int),
        parts matches Some(p) ==> p.0 == num && p.1 == scale,
{
    match rust_decimal::Decimal::try_from_i128_with_scale(num, scale) {
        Ok(d) => Some((d.mantissa(), d.scale())),
        Err(_) => None,
    }
}

/// Whether `a * 10^k == b`, for mantissas within the limits of a decimal.
fn scaled_equals(a: i128, k: u32, b: i128) -> (eq: bool)
    requires
        k <= MAX_SCALE,
        -MAX_I128_REPR <= b <= MAX_I128_REPR,
    ensures
        eq == (a * pow10(k as nat) == b),
{
    proof {
        lemma_pow10_values();
        lemma_pow_increases(10, k as nat, 28);
    }
    let p = pow10_i128(k);
    match a.checked_mul(p) {
        Some(x) => x == b,
        None => false,
    }
}

/// Two numbers written at scales `sa <= sb` are equal exactly when the first
/// mantissa, scaled up by `10^(sb - sa)`, is the second.
pub proof fn lemma_same_value_rescaled(ma: int, sa: nat, mb: int, sb: nat)
    requires
        sa <= sb,
    ensures
        (ma * pow10(sb) == mb * pow10(sa)) <==> (ma * pow10((sb - sa) as nat) == mb),
{
    let k = (sb - sa) as nat;
    lemma_pow_adds(10, k, sa);
    lemma_pow_positive(10, sa);
    let pk = pow10(k);
    let ps = pow10(sa);
    assert(pow10(sb) == pk * ps);
    assert((ma * (pk * ps) == mb * ps) <==> (ma * pk == mb)) by (nonlinear_arith)
        requires
            ps > 0,
    ;
}

impl Decimal {
    #[verifier::type_invariant]
    spec fn inv(self) -> bool {
        representable(self.mantissa as int, self.scale as int)
    }

    /// Zero, at scale 0.
    pub fn zero() -> (d: Decimal)
        ensures
            d@ == (DecimalModel { mantissa: 0, scale: 0 }),
    {
        Decimal { mantissa: 0, scale: 0 }
    }

    /// The largest decimal, `2^96 - 1` at scale 0.
    pub fn max_value() -> (d: Decimal)
        ensures
            d@ == (DecimalModel { mantissa: MAX_I128_REPR as int, scale: 0 }),
    {
        Decimal { mantissa: MAX_I128_REPR, scale: 0 }
    }

    /// `num / 10^scale`; the scale must not exceed `MAX_SCALE`.
    pub fn new(num: i64, scale: u32) -> (d: Decimal)
        requires
            scale <= MAX_SCALE,
        ensures
            d@ == (DecimalModel { mantissa: num as int, scale: scale as nat }),
    {
        Decimal { mantissa: num as i128, scale }
    }

    /// The integer `num`, at scale 0.
    pub fn from(num: i64) -> (d: Decimal)
        ensures
            d@ == (DecimalModel { mantissa: num as int, scale: 0 }),
    {
        Decimal { mantissa: num as i128, scale: 0 }
    }

    /// `num / 10^scale`, or the reason why it is not a decimal.
    pub fn try_from_i128_with_scale(num: i128, scale: u32) -> (r: Result<Decimal, DecimalError>)
        ensures
            r is Ok <==> representable(num as int, scale as int),
            r matches Ok(d) ==> d@ == (DecimalModel { mantissa: num as int, scale: scale as nat }),
            r matches Err(e) ==> e == decimal_error(num as int, scale),
    {
        match checked_decimal_parts(num, scale) {
            Some((mantissa, scale)) => Ok(Decimal { mantissa, scale }),
            None => {
                if scale > MAX_SCALE {
                    Err(DecimalError::ScaleExceedsMaximumPrecision(scale))
                } else if num > MAX_I128_REPR {
                    Err(DecimalError::ExceedsMaximumPossibleValue)
                } else {
                    Err(DecimalError::LessThanMinimumPossibleValue)
                }
            },
        }
    }

    /// The mantissa.
    pub fn mantissa(&self) -> (m: i128)
        ensures
            m == self@.mantissa,
            self@.wf(),
    {
        proof {
            use_type_invariant(self);
        }
        self.mantissa
    }

    /// The scale: the number of decimal digits after the point.
    pub fn scale(&self) -> (s: u32)
        ensures
            s == self@.scale,
            self@.wf(),
    {
        proof {
            use_type_invariant(self);
        }
        self.scale
    }
}

/// Decimals compare by the numbers they stand for: `1.0 == 1.00`.
impl PartialEq for Decimal {
    fn eq(&self, other: &Self) -> (eq: bool) {
        proof {
            use_type_invariant(self);
            use_type_invariant(other);
        }
        if self.scale <= other.scale {
            proof {
                lemma_same_value_rescaled(self@.mantissa, self@.scale, other@.mantissa, other@.scale);
            }
            scaled_equals(self.mantissa, other.scale - self.scale, other.mantissa)
        } else {
            proof {
                lemma_same_value_rescaled(other@.mantissa, other@.scale, self@.mantissa, self@.scale);
            }
            scaled_equals(other.mantissa, self.scale - other.scale, self.mantissa)
        }
    }
}

impl vstd::std_specs::cmp::PartialEqSpecImpl for Decimal {
    open spec fn obeys_eq_spec() -> bool {
        true
    }

    open spec fn eq_spec(&self, other: &Decimal) -> bool {
        self@.same_value(other@)
    }
}

} // verus!
