//! Reading decimals from ClickHouse wire values and writing them back.
//!
//! ClickHouse stores a decimal column as a fixed-scale integer: the wire
//! mantissa is always at the column's scale. Writing scales the decimal's
//! mantissa up to the column scale; reading strips trailing factors of ten
//! when the wire mantissa does not fit a decimal at the column scale.

use vstd::prelude::*;
use vstd::string::*;
use vstd::arithmetic::power::*;
use vstd::arithmetic::mul::*;
use vstd::arithmetic::div_mod::*;
use crate::decimal::{Decimal, DecimalModel, representable, MAX_I128_REPR};
use crate::types::{Type, Value, KlickhouseError, ErrorModel, Result, unexpected_type, unexpected_type_text};
use crate::valuation::{
    abs, pow10, pow10_i128, ten_valuation, trailing_pow10, lemma_pow10_values, lemma_tens_divides,
    lemma_signed_exact_division,
};

verus! {

/// The message of an error about a number out of the range of a decimal.
pub open spec fn out_of_bounds_text(name: Seq<char>) -> Seq<char> {
    name + " out of bounds for rust_decimal"@
}

/// The error for a wire value whose number a decimal cannot hold.
pub fn out_of_range_error(name: &str) -> (e: KlickhouseError)
    ensures
        e@ == ErrorModel::DeserializeError(out_of_bounds_text(name@)),
{
    let mut message = String::from_str(name);
    message.append(" out of bounds for rust_decimal");
    KlickhouseError::DeserializeError(message)
}

/// The error for a decimal that the wire type asked for cannot hold.
pub fn out_of_range(name: &str) -> (e: KlickhouseError)
    ensures
        e@ == ErrorModel::SerializeError(out_of_bounds_text(name@)),
{
    let mut message = String::from_str(name);
    message.append(" out of bounds for rust_decimal");
    KlickhouseError::SerializeError(message)
}

/// The content of a decimal result.
pub open spec fn decimal_result_model(r: Result<Decimal>) -> core::result::Result<
    DecimalModel,
    ErrorModel,
> {
    match r {
        Ok(d) => Ok(d@),
        Err(e) => Err(e@),
    }
}

/// The content of a wire value result.
pub open spec fn value_result_model(r: Result<Value>) -> core::result::Result<Value, ErrorModel> {
    match r {
        Ok(v) => Ok(v),
        Err(e) => Err(e@),
    }
}

/// The content of a mantissa result.
pub open spec fn mantissa_result_model(r: Result<i128>) -> core::result::Result<i128, ErrorModel> {
    match r {
        Ok(m) => Ok(m),
        Err(e) => Err(e@),
    }
}

/// Whether an integer fits an `i128`.
pub open spec fn fits_i128(n: int) -> bool {
    i128::MIN <= n <= i128::MAX
}

// ---------------------------------------------------------------------------
// Reading
// ---------------------------------------------------------------------------

/// How many trailing factors of ten are stripped from a wire mantissa at a
/// column scale: all of them, but never more than the scale.
pub open spec fn reduction(mantissa: int, column_scale: nat) -> nat {
    if ten_valuation(mantissa) < column_scale {
        ten_valuation(mantissa)
    } else {
        column_scale
    }
}

/// The decimal that a wire mantissa at a column scale is read as: the wire
/// value with its trailing factors of ten stripped and its scale lowered by
/// as much (never below scale 0), else an error where a decimal cannot hold
/// it.
pub open spec fn from_scaled_model(mantissa: int, column_scale: nat, name: Seq<char>)
    -> core::result::Result<DecimalModel, ErrorModel>
{
    let k = reduction(mantissa, column_scale);
    let reduced = DecimalModel { mantissa: mantissa / pow10(k), scale: (column_scale - k) as nat };
    if reduced.wf() {
        Ok(reduced)
    } else {
        Err(ErrorModel::DeserializeError(out_of_bounds_text(name)))
    }
}

/// The stripped factor divides the mantissa, and the reading keeps the
/// number: a decimal read from `mantissa` at `column_scale` is within the
/// limits of a decimal and equals `mantissa / 10^column_scale`.
pub proof fn law_from_scaled_keeps_value(mantissa: int, column_scale: nat, name: Seq<char>)
    ensures
        mantissa == pow10(reduction(mantissa, column_scale)) * (mantissa / pow10(
            reduction(mantissa, column_scale),
        )),
        from_scaled_model(mantissa, column_scale, name) matches Ok(d) ==> d.wf() && d.same_value(
            DecimalModel { mantissa, scale: column_scale },
        ),
{
    let k = reduction(mantissa, column_scale);
    let p = pow10(k);
    lemma_pow_positive(10, k);
    if mantissa != 0 {
        lemma_tens_divides(abs(mantissa), k);
        assert((abs(mantissa) as int) == p * ((abs(mantissa) as int) / p));
    } else {
        lemma_pow0(10);
        assert(k == 0);
        assert(p == 1);
        lemma_div_of0(p);
        assert((abs(mantissa) as int) == p * ((abs(mantissa) as int) / p));
    }
    lemma_signed_exact_division(mantissa, p);
    let q = mantissa / p;
    let s = (column_scale - k) as nat;
    lemma_pow_adds(10, s, k);
    assert(pow10(column_scale) == pow10(s) * p);
    assert(q * (pow10(s) * p) == (p * q) * pow10(s)) by (nonlinear_arith);
}

/// Reads the wire mantissa of a decimal column at `column_scale`.
///
/// The wire carries `(mantissa, column_scale)` where the number is
/// `mantissa / 10^column_scale`. Reading does not multiply: trailing
/// factors of ten are stripped from the wire mantissa and the scale lowered
/// by as much (never below zero) before the decimal is built. This keeps
/// the number exact and accepts wire mantissas beyond 96 bits at the column
/// scale that normalize to a smaller mantissa.
pub fn from_scaled(mantissa: i128, column_scale: u32, name: &str) -> (r: Result<Decimal>)
    ensures
        decimal_result_model(r) == from_scaled_model(mantissa as int, column_scale as nat, name@),
        r matches Ok(d) ==> d@.same_value(
            DecimalModel { mantissa: mantissa as int, scale: column_scale as nat },
        ),
{
    proof {
        law_from_scaled_keeps_value(mantissa as int, column_scale as nat, name@);
    }
    // Strip trailing factors of ten and lower the scale by as much, but
    // never below zero.
    let trailing = trailing_pow10(mantissa);
    let reduce = if trailing < column_scale {
        trailing
    } else {
        column_scale
    };
    proof {
        let k = reduce as nat;
        lemma_pow10_values();
        lemma_pow_positive(10, k);
        if mantissa != 0 {
            lemma_tens_divides(abs(mantissa as int), k);
            if k > 38 {
                lemma_pow_increases(10, 39, k);
            }
        }
        lemma_pow_increases(10, k, 38);
    }
    let p = pow10_i128(reduce);
    let reduced = mantissa / p;
    proof {
        let k = reduce as nat;
        if mantissa != 0 {
            lemma_signed_exact_division(mantissa as int, pow10(k));
        }
        if mantissa < 0 {
            assert(reduced == -((-(mantissa as int)) / (p as int)));
        }
        assert(reduced == (mantissa as int) / pow10(k));
    }
    let scale = column_scale - reduce;
    match Decimal::try_from_i128_with_scale(reduced, scale) {
        Ok(value) => Ok(value),
        Err(_) => Err(out_of_range_error(name)),
    }
}

/// A wire integer read as a decimal at scale 0, or the error named `name`
/// where a decimal cannot hold it.
pub open spec fn integer_model(n: int, name: Seq<char>) -> core::result::Result<DecimalModel, ErrorModel> {
    if representable(n, 0) {
        Ok(DecimalModel { mantissa: n, scale: 0 })
    } else {
        Err(ErrorModel::DeserializeError(out_of_bounds_text(name)))
    }
}

/// The decimal that a wire value of column type `t` is read as.
pub open spec fn from_sql_model(t: Type, value: Value) -> core::result::Result<DecimalModel, ErrorModel> {
    match value {
        Value::Int8(i) => Ok(DecimalModel { mantissa: i as int, scale: 0 }),
        Value::Int16(i) => Ok(DecimalModel { mantissa: i as int, scale: 0 }),
        Value::Int32(i) => Ok(DecimalModel { mantissa: i as int, scale: 0 }),
        Value::Int64(i) => Ok(DecimalModel { mantissa: i as int, scale: 0 }),
        Value::Int128(i) => integer_model(i as int, "i128"@),
        Value::UInt8(i) => Ok(DecimalModel { mantissa: i as int, scale: 0 }),
        Value::UInt16(i) => Ok(DecimalModel { mantissa: i as int, scale: 0 }),
        Value::UInt32(i) => Ok(DecimalModel { mantissa: i as int, scale: 0 }),
        Value::UInt64(i) => integer_model(i as int, "u128"@),
        Value::UInt128(i) => integer_model(i as int, "u128"@),
        Value::Decimal32(column_scale, m) => from_scaled_model(
            m as int,
            (column_scale as u32) as nat,
            "Decimal32"@,
        ),
        Value::Decimal64(column_scale, m) => from_scaled_model(
            m as int,
            (column_scale as u32) as nat,
            "Decimal64"@,
        ),
        Value::Decimal128(column_scale, m) => from_scaled_model(
            m as int,
            (column_scale as u32) as nat,
            "Decimal128"@,
        ),
        _ => Err(ErrorModel::DeserializeError(unexpected_type_text(t))),
    }
}

impl Decimal {
    /// Reads a wire value of column type `type_` as a decimal: integers at
    /// scale 0, decimal wire values by `from_scaled`.
    pub fn from_sql(type_: &Type, value: Value) -> (r: Result<Decimal>)
        ensures
            decimal_result_model(r) == from_sql_model(*type_, value),
    {
        match value {
            Value::Int8(i) => Ok(Decimal::new(i as i64, 0)),
            Value::Int16(i) => Ok(Decimal::new(i as i64, 0)),
            Value::Int32(i) => Ok(Decimal::new(i as i64, 0)),
            Value::Int64(i) => Ok(Decimal::new(i, 0)),
            Value::Int128(i) => match Decimal::try_from_i128_with_scale(i, 0) {
                Ok(d) => Ok(d),
                Err(_) => Err(out_of_range_error("i128")),
            },
            Value::UInt8(i) => Ok(Decimal::new(i as i64, 0)),
            Value::UInt16(i) => Ok(Decimal::new(i as i64, 0)),
            Value::UInt32(i) => Ok(Decimal::new(i as i64, 0)),
            Value::UInt64(i) => match Decimal::try_from_i128_with_scale(i as i128, 0) {
                Ok(d) => Ok(d),
                Err(_) => Err(out_of_range_error("u128")),
            },
            Value::UInt128(i) => {
                if i > i128::MAX as u128 {
                    return Err(out_of_range_error("u128"));
                }
                match Decimal::try_from_i128_with_scale(i as i128, 0) {
                    Ok(d) => Ok(d),
                    Err(_) => Err(out_of_range_error("u128")),
                }
            },
            // ClickHouse fixed-point decimals: the wire mantissa is at the column scale.
            Value::Decimal32(column_scale, value) => from_scaled(
                value as i128,
                column_scale as u32,
                "Decimal32",
            ),
            Value::Decimal64(column_scale, value) => from_scaled(
                value as i128,
                column_scale as u32,
                "Decimal64",
            ),
            Value::Decimal128(column_scale, value) => from_scaled(
                value,
                column_scale as u32,
                "Decimal128",
            ),
            _ => Err(unexpected_type(type_)),
        }
    }
}

// ---------------------------------------------------------------------------
// Writing
// ---------------------------------------------------------------------------

/// A mantissa at `scale` rewritten at `column_scale`: multiplied by
/// `10^(column_scale - scale)`, or the error where an `i128` cannot hold it.
pub open spec fn column_mantissa_model(mantissa: int, scale: nat, column_scale: nat)
    -> core::result::Result<i128, ErrorModel>
{
    let scaled = mantissa * pow10((column_scale - scale) as nat);
    if fits_i128(scaled) {
        Ok(scaled as i128)
    } else {
        Err(ErrorModel::SerializeError(out_of_bounds_text("mantissa"@)))
    }
}

/// Rewrites a mantissa at `scale` at the column's scale, which is not
/// smaller: a decimal at a lower scale than its column is multiplied up.
pub fn mantissa_to_column_scale(mantissa: i128, scale: u32, column_scale: u32) -> (r: Result<i128>)
    requires
        column_scale >= scale,
        column_scale - scale <= 38,
    ensures
        mantissa_result_model(r) == column_mantissa_model(
            mantissa as int,
            scale as nat,
            column_scale as nat,
        ),
{
    proof {
        lemma_pow10_values();
        lemma_pow_increases(10, (column_scale - scale) as nat, 38);
    }
    if column_scale == scale {
        proof {
            lemma_pow0(10);
        }
        Ok(mantissa)
    } else {
        let factor = pow10_i128(column_scale - scale);
        match mantissa.checked_mul(factor) {
            Some(scaled) => Ok(scaled),
            None => Err(out_of_range("mantissa")),
        }
    }
}

/// The type hint behind a reference.
pub open spec fn hint_model(type_hint: Option<&Type>) -> Option<Type> {
    match type_hint {
        Some(t) => Some(*t),
        None => None,
    }
}

/// Whether rescaling to the column scale of a decimal hint multiplies by at
/// most `10^38`, the largest power of ten that an `i128` holds.
pub open spec fn scaling_in_range(hint: Option<Type>, scale: nat) -> bool {
    match hint {
        Some(Type::Decimal32(cs)) => (cs as u32) >= scale ==> (cs as u32) - scale <= 38,
        Some(Type::Decimal64(cs)) => (cs as u32) >= scale ==> (cs as u32) - scale <= 38,
        Some(Type::Decimal128(cs)) => (cs as u32) >= scale ==> (cs as u32) - scale <= 38,
        _ => true,
    }
}

/// The wire value that a decimal is written as, for a type hint.
pub open spec fn to_sql_model(d: DecimalModel, hint: Option<Type>) -> core::result::Result<Value, ErrorModel> {
    match hint {
        None => Ok(Value::Decimal128(d.scale as usize, d.mantissa as i128)),
        Some(Type::Decimal32(cs)) => if (cs as u32) >= d.scale {
            match column_mantissa_model(d.mantissa, d.scale, (cs as u32) as nat) {
                Ok(m) => if i32::MIN <= m <= i32::MAX {
                    Ok(Value::Decimal32(cs, m as i32))
                } else {
                    Err(ErrorModel::SerializeError(out_of_bounds_text("Decimal32"@)))
                },
                Err(e) => Err(e),
            }
        } else {
            Err(ErrorModel::SerializeError(unexpected_type_text(Type::Decimal32(cs))))
        },
        Some(Type::Decimal64(cs)) => if (cs as u32) >= d.scale {
            match column_mantissa_model(d.mantissa, d.scale, (cs as u32) as nat) {
                Ok(m) => if i64::MIN <= m <= i64::MAX {
                    Ok(Value::Decimal64(cs, m as i64))
                } else {
                    Err(ErrorModel::SerializeError(out_of_bounds_text("Decimal64"@)))
                },
                Err(e) => Err(e),
            }
        } else {
            Err(ErrorModel::SerializeError(unexpected_type_text(Type::Decimal64(cs))))
        },
        Some(Type::Decimal128(cs)) => if (cs as u32) >= d.scale {
            match column_mantissa_model(d.mantissa, d.scale, (cs as u32) as nat) {
                Ok(m) => Ok(Value::Decimal128(cs, m)),
                Err(e) => Err(e),
            }
        } else {
            Err(ErrorModel::SerializeError(unexpected_type_text(Type::Decimal128(cs))))
        },
        Some(t) => Err(ErrorModel::SerializeError(unexpected_type_text(t))),
    }
}

impl Decimal {
    /// Writes the decimal as a wire value. Without a hint it goes as a
    /// 128-bit decimal at its own scale; with a decimal column type whose
    /// scale is not below its own, its mantissa is multiplied up to the
    /// column's scale; any other type is refused.
    pub fn to_sql(self, type_hint: Option<&Type>) -> (r: Result<Value>)
        requires
            scaling_in_range(hint_model(type_hint), self@.scale),
        ensures
            value_result_model(r) == to_sql_model(self@, hint_model(type_hint)),
    {
        let scale = self.scale();
        let mantissa = self.mantissa();
        match type_hint {
            None => Ok(Value::Decimal128(scale as usize, mantissa)),
            Some(Type::Decimal32(column_scale)) if *column_scale as u32 >= scale => {
                match mantissa_to_column_scale(mantissa, scale, *column_scale as u32) {
                    Ok(scaled) => {
                        if i32::MIN as i128 <= scaled && scaled <= i32::MAX as i128 {
                            Ok(Value::Decimal32(*column_scale, scaled as i32))
                        } else {
                            Err(out_of_range("Decimal32"))
                        }
                    },
                    Err(e) => Err(e),
                }
            },
            Some(Type::Decimal64(column_scale)) if *column_scale as u32 >= scale => {
                match mantissa_to_column_scale(mantissa, scale, *column_scale as u32) {
                    Ok(scaled) => {
                        if i64::MIN as i128 <= scaled && scaled <= i64::MAX as i128 {
                            Ok(Value::Decimal64(*column_scale, scaled as i64))
                        } else {
                            Err(out_of_range("Decimal64"))
                        }
                    },
                    Err(e) => Err(e),
                }
            },
            Some(Type::Decimal128(column_scale)) if *column_scale as u32 >= scale => {
                match mantissa_to_column_scale(mantissa, scale, *column_scale as u32) {
                    Ok(scaled) => Ok(Value::Decimal128(*column_scale, scaled)),
                    Err(e) => Err(e),
                }
            },
            Some(x) => {
                let mut message = String::from_str("unexpected type: ");
                let name = x.name();
                message.append(name.as_str());
                Err(KlickhouseError::SerializeError(message))
            },
        }
    }
}

} // verus!
