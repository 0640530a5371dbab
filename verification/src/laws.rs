//! Properties that relate the reading and the writing of decimals.

use vstd::prelude::*;
use vstd::arithmetic::power::*;
use vstd::arithmetic::div_mod::*;
use crate::decimal::{DecimalModel, representable, MAX_SCALE, MAX_I128_REPR};
use crate::types::{Type, Value, ErrorModel, type_text};
use crate::conversion::{
    from_scaled_model, from_sql_model, to_sql_model, column_mantissa_model, reduction,
    law_from_scaled_keeps_value,
};
use crate::valuation::{
    abs, pow10, ten_valuation, lemma_tens_of_multiple, lemma_tens_factor, lemma_tens_divides,
    lemma_signed_exact_division,
};

verus! {

/// Equality of numbers is an equivalence: reflexive, symmetric and transitive.
pub proof fn law_same_value_is_equivalence(a: DecimalModel, b: DecimalModel, c: DecimalModel)
    ensures
        a.same_value(a),
        a.same_value(b) ==> b.same_value(a),
        a.same_value(b) && b.same_value(c) ==> a.same_value(c),
{
    lemma_pow_positive(10, b.scale);
    let pa = pow10(a.scale);
    let pb = pow10(b.scale);
    let pc = pow10(c.scale);
    assert(a.mantissa * pb == b.mantissa * pa && b.mantissa * pc == c.mantissa * pb
        ==> a.mantissa * pc == c.mantissa * pa) by (nonlinear_arith)
        requires
            pb > 0,
    ;
}

/// Of two exact factorings `v == p1 * q1 == p2 * q2` with `0 < p1 <= p2`,
/// the second quotient is not larger in magnitude.
proof fn lemma_quotient_shrinks(v: int, p1: int, q1: int, p2: int, q2: int)
    requires
        0 < p1 <= p2,
        v == p1 * q1,
        v == p2 * q2,
    ensures
        abs(q2) <= abs(q1),
{
    assert(abs(q2) <= abs(q1)) by (nonlinear_arith)
        requires
            0 < p1 <= p2,
            p1 * q1 == p2 * q2,
    {
        if q1 >= 0 {
            assert(p2 * q2 >= 0);
            if q2 < 0 {
                assert(p2 * q2 < 0);
            }
            assert(p1 * q2 <= p2 * q2);
            assert(p1 * q2 <= p1 * q1);
        } else {
            assert(p2 * q2 < 0);
            if q2 >= 0 {
                assert(p2 * q2 >= 0);
            }
            assert(p1 * q2 >= p2 * q2);
            assert(p1 * q2 >= p1 * q1);
        }
    }
}

/// Reading is complete: a wire mantissa `m != 0` at column scale
/// `column_scale` is read as a decimal whenever some exact rewriting of the
/// same number, `m / 10^k` at scale `column_scale - k`, is within the
/// limits of a decimal.
pub proof fn law_from_scaled_complete(m: int, column_scale: nat, k: nat, name: Seq<char>)
    requires
        m != 0,
        k <= column_scale,
        m % pow10(k) == 0,
        representable(m / pow10(k), column_scale - k),
    ensures
        from_scaled_model(m, column_scale, name) is Ok,
{
    {
        let pk = pow10(k);
        let q = m / pk;
        lemma_pow_positive(10, k);
        lemma_fundamental_div_mod(m, pk);
        assert(q != 0) by {
            if q == 0 {
                assert(m == pk * 0);
            }
        }
        assert(q * pk == m) by {
            vstd::arithmetic::mul::lemma_mul_is_commutative(q, pk);
        }
        lemma_tens_of_multiple(q, k);
        let r = reduction(m, column_scale);
        assert(r >= k);
        law_from_scaled_keeps_value(m, column_scale, name);
        lemma_pow_increases(10, k, r);
        lemma_quotient_shrinks(m, pk, q, pow10(r), m / pow10(r));
    }
}

/// A decimal written at a column scale not below its own is read back as
/// a decimal of the same number, unless it is zero written at a column
/// scale above `MAX_SCALE`.
proof fn lemma_read_back(d: DecimalModel, column_scale: nat, v: int, name: Seq<char>)
    requires
        d.wf(),
        column_scale >= d.scale,
        v == d.mantissa * pow10((column_scale - d.scale) as nat),
        d.mantissa != 0 || column_scale <= MAX_SCALE,
    ensures
        from_scaled_model(v, column_scale, name) matches Ok(back) && back.same_value(d),
{
    let j = (column_scale - d.scale) as nat;
    let pj = pow10(j);
    lemma_pow_positive(10, j);
    lemma_pow_adds(10, j, d.scale);
    let written = DecimalModel { mantissa: v, scale: column_scale };
    assert(written.same_value(d)) by {
        assert(v * pow10(d.scale) == d.mantissa * pow10(column_scale)) by (nonlinear_arith)
            requires
                v == d.mantissa * pj,
                pow10(column_scale) == pj * pow10(d.scale),
        ;
    }
    law_from_scaled_keeps_value(v, column_scale, name);
    if d.mantissa == 0 {
        assert(v == 0);
        assert(ten_valuation(v) == 0);
        lemma_pow0(10);
        lemma_div_of0(1);
    } else {
        assert(v == d.mantissa * pj);
        lemma_tens_of_multiple(d.mantissa, j);
        let r = reduction(v, column_scale);
        assert(r >= j);
        lemma_pow_increases(10, j, r);
        assert(v == pj * d.mantissa) by {
            vstd::arithmetic::mul::lemma_mul_is_commutative(d.mantissa, pj);
        }
        lemma_quotient_shrinks(v, pj, d.mantissa, pow10(r), v / pow10(r));
    }
    let back = from_scaled_model(v, column_scale, name)->Ok_0;
    law_same_value_is_equivalence(back, written, d);
}

/// A decimal with its trailing zeros stripped and its scale lowered by as
/// much, never below 0.
pub open spec fn stripped(d: DecimalModel) -> DecimalModel {
    let k = reduction(d.mantissa, d.scale);
    DecimalModel { mantissa: d.mantissa / pow10(k), scale: (d.scale - k) as nat }
}

/// Reading strips every trailing zero it can: the decimal read has no
/// trailing zero in its mantissa, unless it is zero or at scale 0.
pub proof fn law_from_scaled_strips_trailing_zeros(m: int, column_scale: nat, name: Seq<char>)
    ensures
        from_scaled_model(m, column_scale, name) matches Ok(d) ==> d.mantissa == 0 || d.scale == 0
            || d.mantissa % 10 != 0,
{
    let k = reduction(m, column_scale);
    if m != 0 && k == ten_valuation(m) {
        lemma_tens_factor(abs(m));
        law_from_scaled_keeps_value(m, column_scale, name);
        lemma_pow_positive(10, k);
        lemma_tens_divides(abs(m), k);
        lemma_signed_exact_division(m, pow10(k));
        let q = m / pow10(k);
        assert((abs(q) as int) % 10 != 0);
        if q < 0 {
            assert((-q) % 10 != 0);
        }
        assert(q % 10 != 0);
    } else if m == 0 {
        lemma_pow0(10);
        lemma_div_of0(1);
    }
}

/// The scale at which a decimal is written for a type hint: the column
/// scale of a decimal type, else its own.
pub open spec fn written_scale(d: DecimalModel, hint: Option<Type>) -> nat {
    match hint {
        Some(Type::Decimal32(cs)) => (cs as u32) as nat,
        Some(Type::Decimal64(cs)) => (cs as u32) as nat,
        Some(Type::Decimal128(cs)) => (cs as u32) as nat,
        _ => d.scale,
    }
}

/// Writing then reading gives back the same number: whenever a decimal is
/// written as a wire value, reading that value (as a column of any type)
/// gives a decimal equal to it, unless it is zero written at a column scale
/// above `MAX_SCALE`; written at its own scale, it comes back as the same
/// number with its trailing zeros stripped.
pub proof fn law_roundtrip(d: DecimalModel, hint: Option<Type>, t: Type)
    requires
        d.wf(),
        to_sql_model(d, hint) is Ok,
        d.mantissa != 0 || written_scale(d, hint) <= MAX_SCALE,
    ensures
        to_sql_model(d, hint) matches Ok(value) && from_sql_model(t, value) matches Ok(back)
            && back.same_value(d),
        written_scale(d, hint) == d.scale ==> (to_sql_model(d, hint) matches Ok(value)
            && from_sql_model(t, value) == Ok::<DecimalModel, ErrorModel>(stripped(d))),
{
    lemma_pow0(10);
    let cs = written_scale(d, hint);
    match hint {
        None => {
            lemma_pow0(10);
            lemma_read_back(d, d.scale, d.mantissa, "Decimal128"@);
        },
        Some(Type::Decimal32(c)) => {
            lemma_read_back(d, cs, d.mantissa * pow10((cs - d.scale) as nat), "Decimal32"@);
        },
        Some(Type::Decimal64(c)) => {
            lemma_read_back(d, cs, d.mantissa * pow10((cs - d.scale) as nat), "Decimal64"@);
        },
        Some(Type::Decimal128(c)) => {
            lemma_read_back(d, cs, d.mantissa * pow10((cs - d.scale) as nat), "Decimal128"@);
        },
        Some(_) => {},
    }
}

/// The counter of trailing decimal zeros is exact: for `n != 0`,
/// `10^ten_valuation(n)` divides `n` and leaves a quotient that 10 does not
/// divide.
pub proof fn law_ten_valuation_exact(n: int)
    requires
        n != 0,
    ensures
        (abs(n) as int) % pow10(ten_valuation(n)) == 0,
        ((abs(n) as int) / pow10(ten_valuation(n))) % 10 != 0,
{
    lemma_tens_factor(abs(n));
}

} // verus!

verus! {

/// The mantissa of a decimal rewritten at a column scale not below its own.
pub open spec fn mantissa_at(d: DecimalModel, column_scale: nat) -> int {
    d.mantissa * pow10((column_scale - d.scale) as nat)
}

/// Writing to a decimal column multiplies the mantissa up to the column
/// scale: it succeeds exactly when the rescaled mantissa fits the column's
/// integer width, and then writes that mantissa at the column scale; a
/// column scale below the decimal's own is refused as an unexpected type.
pub proof fn law_to_sql_decimal_column(d: DecimalModel, cs: usize)
    requires
        d.wf(),
    ensures
        (cs as u32) >= d.scale ==> {
            let m = mantissa_at(d, (cs as u32) as nat);
            &&& (i32::MIN <= m <= i32::MAX <==> to_sql_model(d, Some(Type::Decimal32(cs))) is Ok)
            &&& (i32::MIN <= m <= i32::MAX ==> to_sql_model(d, Some(Type::Decimal32(cs)))
                == Ok::<Value, ErrorModel>(Value::Decimal32(cs, m as i32)))
            &&& (i64::MIN <= m <= i64::MAX <==> to_sql_model(d, Some(Type::Decimal64(cs))) is Ok)
            &&& (i64::MIN <= m <= i64::MAX ==> to_sql_model(d, Some(Type::Decimal64(cs)))
                == Ok::<Value, ErrorModel>(Value::Decimal64(cs, m as i64)))
            &&& (i128::MIN <= m <= i128::MAX <==> to_sql_model(d, Some(Type::Decimal128(cs))) is Ok)
            &&& (i128::MIN <= m <= i128::MAX ==> to_sql_model(d, Some(Type::Decimal128(cs)))
                == Ok::<Value, ErrorModel>(Value::Decimal128(cs, m as i128)))
            &&& (to_sql_model(d, Some(Type::Decimal32(cs))) matches Err(e) ==> e is SerializeError)
            &&& (to_sql_model(d, Some(Type::Decimal64(cs))) matches Err(e) ==> e is SerializeError)
            &&& (to_sql_model(d, Some(Type::Decimal128(cs))) matches Err(e) ==> e is SerializeError)
        },
        (cs as u32) < d.scale ==> {
            &&& to_sql_model(d, Some(Type::Decimal32(cs))) == Err::<Value, ErrorModel>(
                ErrorModel::SerializeError("unexpected type: "@ + type_text(Type::Decimal32(cs))),
            )
            &&& to_sql_model(d, Some(Type::Decimal64(cs))) == Err::<Value, ErrorModel>(
                ErrorModel::SerializeError("unexpected type: "@ + type_text(Type::Decimal64(cs))),
            )
            &&& to_sql_model(d, Some(Type::Decimal128(cs))) == Err::<Value, ErrorModel>(
                ErrorModel::SerializeError("unexpected type: "@ + type_text(Type::Decimal128(cs))),
            )
        },
{
}

/// Writing without a type hint never fails: the decimal goes as a 128-bit
/// decimal with its own mantissa at its own scale.
pub proof fn law_to_sql_without_hint(d: DecimalModel)
    requires
        d.wf(),
    ensures
        to_sql_model(d, None) == Ok::<Value, ErrorModel>(
            Value::Decimal128(d.scale as usize, d.mantissa as i128),
        ),
        to_sql_model(d, None) matches Ok(Value::Decimal128(s, m)) && s == d.scale && m
            == d.mantissa,
{
}

/// Writing to a column that is not a decimal is refused with an error that
/// names the column type.
pub proof fn law_to_sql_other_columns(d: DecimalModel, t: Type)
    requires
        !(t is Decimal32 || t is Decimal64 || t is Decimal128),
    ensures
        to_sql_model(d, Some(t)) == Err::<Value, ErrorModel>(
            ErrorModel::SerializeError("unexpected type: "@ + type_text(t)),
        ),
{
}

/// Reading an integer wire value keeps the integer, at scale 0; a 128-bit
/// or unsigned 64-bit integer beyond `2^96 - 1` in magnitude is refused as
/// out of bounds.
pub proof fn law_from_sql_integers(t: Type, v: Value)
    ensures
        v matches Value::Int8(i) ==> from_sql_model(t, v) == Ok::<DecimalModel, ErrorModel>(
            DecimalModel { mantissa: i as int, scale: 0 },
        ),
        v matches Value::Int16(i) ==> from_sql_model(t, v) == Ok::<DecimalModel, ErrorModel>(
            DecimalModel { mantissa: i as int, scale: 0 },
        ),
        v matches Value::Int32(i) ==> from_sql_model(t, v) == Ok::<DecimalModel, ErrorModel>(
            DecimalModel { mantissa: i as int, scale: 0 },
        ),
        v matches Value::Int64(i) ==> from_sql_model(t, v) == Ok::<DecimalModel, ErrorModel>(
            DecimalModel { mantissa: i as int, scale: 0 },
        ),
        v matches Value::UInt8(i) ==> from_sql_model(t, v) == Ok::<DecimalModel, ErrorModel>(
            DecimalModel { mantissa: i as int, scale: 0 },
        ),
        v matches Value::UInt16(i) ==> from_sql_model(t, v) == Ok::<DecimalModel, ErrorModel>(
            DecimalModel { mantissa: i as int, scale: 0 },
        ),
        v matches Value::UInt32(i) ==> from_sql_model(t, v) == Ok::<DecimalModel, ErrorModel>(
            DecimalModel { mantissa: i as int, scale: 0 },
        ),
        v matches Value::Int128(i) ==> (abs(i as int) <= MAX_I128_REPR ==> from_sql_model(t, v)
            == Ok::<DecimalModel, ErrorModel>(DecimalModel { mantissa: i as int, scale: 0 })),
        v matches Value::UInt64(i) ==> from_sql_model(t, v) == Ok::<DecimalModel, ErrorModel>(
            DecimalModel { mantissa: i as int, scale: 0 },
        ),
        v matches Value::UInt128(i) ==> (i <= MAX_I128_REPR ==> from_sql_model(t, v) == Ok::<
            DecimalModel,
            ErrorModel,
        >(DecimalModel { mantissa: i as int, scale: 0 })),
        v matches Value::Int128(i) ==> (abs(i as int) > MAX_I128_REPR ==> from_sql_model(t, v)
            == Err::<DecimalModel, ErrorModel>(
            ErrorModel::DeserializeError("i128"@ + " out of bounds for rust_decimal"@),
        )),
        v matches Value::UInt128(i) ==> (i > MAX_I128_REPR ==> from_sql_model(t, v) == Err::<
            DecimalModel,
            ErrorModel,
        >(ErrorModel::DeserializeError("u128"@ + " out of bounds for rust_decimal"@))),
{
}

/// Reading a decimal wire value is exact: a decimal read from mantissa `m`
/// at column scale `cs` is within the limits of a decimal and is the number
/// `m / 10^cs`; and a non-zero wire value is refused only when no exact
/// rewriting `m / 10^k` at scale `cs - k` is within those limits.
pub proof fn law_from_sql_decimals(t: Type, v: Value, k: nat)
    ensures
        v matches Value::Decimal32(cs, m) ==> {
            &&& (from_sql_model(t, v) matches Ok(d) ==> d.wf() && d.same_value(
                DecimalModel { mantissa: m as int, scale: (cs as u32) as nat },
            ))
            &&& (m != 0 && k <= (cs as u32) && (m as int) % pow10(k) == 0 && representable(
                (m as int) / pow10(k),
                (cs as u32) - k,
            ) ==> from_sql_model(t, v) is Ok)
            &&& (from_sql_model(t, v) matches Err(e) ==> e is DeserializeError)
        },
        v matches Value::Decimal64(cs, m) ==> {
            &&& (from_sql_model(t, v) matches Ok(d) ==> d.wf() && d.same_value(
                DecimalModel { mantissa: m as int, scale: (cs as u32) as nat },
            ))
            &&& (m != 0 && k <= (cs as u32) && (m as int) % pow10(k) == 0 && representable(
                (m as int) / pow10(k),
                (cs as u32) - k,
            ) ==> from_sql_model(t, v) is Ok)
            &&& (from_sql_model(t, v) matches Err(e) ==> e is DeserializeError)
        },
        v matches Value::Decimal128(cs, m) ==> {
            &&& (from_sql_model(t, v) matches Ok(d) ==> d.wf() && d.same_value(
                DecimalModel { mantissa: m as int, scale: (cs as u32) as nat },
            ))
            &&& (m != 0 && k <= (cs as u32) && (m as int) % pow10(k) == 0 && representable(
                (m as int) / pow10(k),
                (cs as u32) - k,
            ) ==> from_sql_model(t, v) is Ok)
            &&& (from_sql_model(t, v) matches Err(e) ==> e is DeserializeError)
        },
{
    match v {
        Value::Decimal32(cs, m) => {
            law_from_scaled_keeps_value(m as int, (cs as u32) as nat, "Decimal32"@);
            if m != 0 && k <= (cs as u32) && (m as int) % pow10(k) == 0 && representable(
                (m as int) / pow10(k),
                (cs as u32) - k,
            ) {
                law_from_scaled_complete(m as int, (cs as u32) as nat, k, "Decimal32"@);
            }
        },
        Value::Decimal64(cs, m) => {
            law_from_scaled_keeps_value(m as int, (cs as u32) as nat, "Decimal64"@);
            if m != 0 && k <= (cs as u32) && (m as int) % pow10(k) == 0 && representable(
                (m as int) / pow10(k),
                (cs as u32) - k,
            ) {
                law_from_scaled_complete(m as int, (cs as u32) as nat, k, "Decimal64"@);
            }
        },
        Value::Decimal128(cs, m) => {
            law_from_scaled_keeps_value(m as int, (cs as u32) as nat, "Decimal128"@);
            if m != 0 && k <= (cs as u32) && (m as int) % pow10(k) == 0 && representable(
                (m as int) / pow10(k),
                (cs as u32) - k,
            ) {
                law_from_scaled_complete(m as int, (cs as u32) as nat, k, "Decimal128"@);
            }
        },
        _ => {},
    }
}

/// Reading a wire value that is not a number is refused, whatever the
/// column type, with an error that names the column type.
pub proof fn law_from_sql_refuses_non_numbers(t: Type, v: Value)
    requires
        v is String || v is Null,
    ensures
        from_sql_model(t, v) == Err::<DecimalModel, ErrorModel>(
            ErrorModel::DeserializeError("unexpected type: "@ + type_text(t)),
        ),
{
}

} // verus!
