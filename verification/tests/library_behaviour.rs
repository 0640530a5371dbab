use klickhouse::conversion::{from_scaled, mantissa_to_column_scale, out_of_range, out_of_range_error};
use klickhouse::types::{decimal_string, unexpected_type};
use klickhouse::valuation::{magnitude, pow10_i128, trailing_fives, trailing_pow10};
use klickhouse::{Decimal, DecimalError, KlickhouseError, Type, Value, MAX_I128_REPR};

fn serialize_message(e: KlickhouseError) -> String {
    match e {
        KlickhouseError::SerializeError(m) => m,
        KlickhouseError::DeserializeError(m) => panic!("expected a serialize error, got {m}"),
    }
}

fn deserialize_message(e: KlickhouseError) -> String {
    match e {
        KlickhouseError::DeserializeError(m) => m,
        KlickhouseError::SerializeError(m) => panic!("expected a deserialize error, got {m}"),
    }
}

fn parts(d: &Decimal) -> (i128, u32) {
    (d.mantissa(), d.scale())
}

#[test]
fn trailing_fives_counts_factors_of_five() {
    assert_eq!(trailing_fives(1), 0);
    assert_eq!(trailing_fives(7), 0);
    assert_eq!(trailing_fives(125), 3);
    assert_eq!(trailing_fives(250), 3);
    assert_eq!(trailing_fives(5u128.pow(55)), 55);
    assert_eq!(trailing_fives(u128::MAX), 1);
}

#[test]
fn trailing_pow10_is_min_of_twos_and_fives() {
    assert_eq!(trailing_pow10(0), 0);
    assert_eq!(trailing_pow10(7), 0);
    assert_eq!(trailing_pow10(-1200), 2);
    // 2^5 * 5^7: five trailing zeros, limited by the factors of 2.
    assert_eq!(trailing_pow10(32 * 78_125), 5);
    // 2^3 * 5^9: three trailing zeros, limited by the factors of 2.
    assert_eq!(trailing_pow10(8 * 1_953_125), 3);
    // 2^9 * 5^3: three trailing zeros, limited by the factors of 5.
    assert_eq!(trailing_pow10(512 * 125), 3);
    assert_eq!(trailing_pow10(10i128.pow(38)), 38);
    assert_eq!(trailing_pow10(i128::MIN), 0);
    assert_eq!(trailing_pow10(-79_228_162_515_000_000_000_000_000_000), 18);
}

#[test]
fn magnitude_and_powers_of_ten() {
    assert_eq!(magnitude(-5), 5);
    assert_eq!(magnitude(i128::MIN), 1u128 << 127);
    assert_eq!(magnitude(i128::MAX), i128::MAX as u128);
    assert_eq!(pow10_i128(0), 1);
    assert_eq!(pow10_i128(18), 1_000_000_000_000_000_000);
    assert_eq!(pow10_i128(38), 10i128.pow(38));
}

#[test]
fn decimal_constructors_check_the_limits() {
    assert_eq!(parts(&Decimal::zero()), (0, 0));
    assert_eq!(parts(&Decimal::max_value()), (MAX_I128_REPR, 0));
    assert_eq!(parts(&Decimal::new(-3141, 3)), (-3141, 3));
    assert_eq!(parts(&Decimal::from(-7)), (-7, 0));
    let d = Decimal::try_from_i128_with_scale(-MAX_I128_REPR, 28).unwrap();
    assert_eq!(parts(&d), (-MAX_I128_REPR, 28));
    assert_eq!(
        Decimal::try_from_i128_with_scale(1, 29).unwrap_err(),
        DecimalError::ScaleExceedsMaximumPrecision(29)
    );
    assert_eq!(
        Decimal::try_from_i128_with_scale(MAX_I128_REPR + 1, 0).unwrap_err(),
        DecimalError::ExceedsMaximumPossibleValue
    );
    assert_eq!(
        Decimal::try_from_i128_with_scale(-MAX_I128_REPR - 1, 0).unwrap_err(),
        DecimalError::LessThanMinimumPossibleValue
    );
}

#[test]
fn decimals_compare_by_number() {
    assert_eq!(Decimal::new(10, 1), Decimal::new(1, 0));
    assert_eq!(Decimal::new(1, 0), Decimal::new(10, 1));
    assert_eq!(Decimal::new(-1_000, 3), Decimal::from(-1));
    assert_ne!(Decimal::new(11, 1), Decimal::new(1, 0));
    assert_ne!(Decimal::new(-10, 1), Decimal::new(1, 0));
    // Rescaling the larger mantissa overflows an i128: not equal.
    assert_ne!(Decimal::max_value(), Decimal::try_from_i128_with_scale(1, 28).unwrap());
    assert_eq!(
        Decimal::try_from_i128_with_scale(10i128.pow(28), 28).unwrap(),
        Decimal::from(1)
    );
}

#[test]
fn error_messages() {
    assert_eq!(
        deserialize_message(out_of_range_error("i128")),
        "i128 out of bounds for rust_decimal"
    );
    assert_eq!(
        serialize_message(out_of_range("Decimal32")),
        "Decimal32 out of bounds for rust_decimal"
    );
    assert_eq!(
        deserialize_message(unexpected_type(&Type::Decimal32(5))),
        "unexpected type: Decimal32(5)"
    );
    assert_eq!(decimal_string(0), "0");
    assert_eq!(decimal_string(1234567890), "1234567890");
    assert_eq!(Type::FixedString(16).name(), "FixedString(16)");
    assert_eq!(Type::UInt128.name(), "UInt128");
}

#[test]
fn from_sql_reads_integers_at_scale_zero() {
    let t = Type::Int64;
    assert_eq!(parts(&Decimal::from_sql(&t, Value::Int8(-5)).unwrap()), (-5, 0));
    assert_eq!(parts(&Decimal::from_sql(&t, Value::UInt32(u32::MAX)).unwrap()), (u32::MAX as i128, 0));
    assert_eq!(parts(&Decimal::from_sql(&t, Value::Int64(i64::MIN)).unwrap()), (i64::MIN as i128, 0));
    assert_eq!(parts(&Decimal::from_sql(&t, Value::UInt64(u64::MAX)).unwrap()), (u64::MAX as i128, 0));
    assert_eq!(
        parts(&Decimal::from_sql(&t, Value::Int128(-MAX_I128_REPR)).unwrap()),
        (-MAX_I128_REPR, 0)
    );
    assert_eq!(
        deserialize_message(Decimal::from_sql(&t, Value::Int128(MAX_I128_REPR + 1)).unwrap_err()),
        "i128 out of bounds for rust_decimal"
    );
    assert_eq!(
        deserialize_message(Decimal::from_sql(&t, Value::UInt128(u128::MAX)).unwrap_err()),
        "u128 out of bounds for rust_decimal"
    );
    assert_eq!(
        deserialize_message(Decimal::from_sql(&t, Value::UInt128(1u128 << 96)).unwrap_err()),
        "u128 out of bounds for rust_decimal"
    );
    assert_eq!(
        parts(&Decimal::from_sql(&t, Value::UInt128(1u128 << 95)).unwrap()),
        (1i128 << 95, 0)
    );
}

#[test]
fn from_sql_refuses_other_values() {
    let err = Decimal::from_sql(&Type::String, Value::String(b"1.5".to_vec())).unwrap_err();
    assert_eq!(deserialize_message(err), "unexpected type: String");
    let err = Decimal::from_sql(&Type::Uuid, Value::Null).unwrap_err();
    assert_eq!(deserialize_message(err), "unexpected type: UUID");
}

#[test]
fn from_scaled_strips_trailing_zeros_even_when_the_wire_fits() {
    let d = from_scaled(12_345_000, 5, "Decimal32").unwrap();
    assert_eq!(parts(&d), (12_345, 2));
    let d = from_scaled(-1, 28, "Decimal128").unwrap();
    assert_eq!(parts(&d), (-1, 28));
    let d = from_scaled(0, 5, "Decimal64").unwrap();
    assert_eq!(parts(&d), (0, 5));
    let d = from_scaled(1_000, 2, "Decimal64").unwrap();
    assert_eq!(parts(&d), (10, 0));
}

#[test]
fn reading_back_at_the_own_scale_strips_trailing_zeros() {
    let stored = Decimal::new(1_200, 4).to_sql(None).unwrap();
    assert_eq!(stored, Value::Decimal128(4, 1_200));
    let back = Decimal::from_sql(&Type::Decimal128(4), stored).unwrap();
    assert_eq!(parts(&back), (12, 2));
    assert_eq!(back, Decimal::new(1_200, 4));
}

#[test]
fn from_scaled_strips_trailing_zeros_when_needed() {
    // 79_228_162_515 * 10^18 exceeds 96 bits at scale 18 but normalizes to scale 0.
    let d = from_scaled(79_228_162_515 * 10i128.pow(18), 18, "Decimal128").unwrap();
    assert_eq!(parts(&d), (79_228_162_515, 0));
    // Scale above 28: stripped down to scale 28.
    let d = from_scaled(5 * 10i128.pow(2), 30, "Decimal128").unwrap();
    assert_eq!(parts(&d), (5, 28));
    // Stripping never goes below scale 0.
    let d = from_scaled(10i128.pow(31), 2, "Decimal128");
    assert_eq!(
        deserialize_message(d.unwrap_err()),
        "Decimal128 out of bounds for rust_decimal"
    );
    // A zero mantissa has no trailing factor to strip.
    assert_eq!(
        deserialize_message(from_scaled(0, 30, "Decimal128").unwrap_err()),
        "Decimal128 out of bounds for rust_decimal"
    );
    // Negative mantissas keep their sign.
    let d = from_scaled(-3 * 10i128.pow(35), 35, "Decimal128").unwrap();
    assert_eq!(parts(&d), (-3, 0));
}

#[test]
fn from_scaled_reads_large_column_scales() {
    // A 1 written at column scale 30 comes back as 1 at scale 0.
    let d = from_scaled(10i128.pow(30), 30, "Decimal128").unwrap();
    assert_eq!(parts(&d), (1, 0));
    assert_eq!(d, Decimal::from(1));
}

#[test]
fn mantissa_to_column_scale_multiplies_up() {
    assert_eq!(mantissa_to_column_scale(5, 2, 2).unwrap(), 5);
    assert_eq!(mantissa_to_column_scale(5, 0, 3).unwrap(), 5_000);
    assert_eq!(mantissa_to_column_scale(-1, 1, 39).unwrap(), -10i128.pow(38));
    assert_eq!(
        serialize_message(mantissa_to_column_scale(2, 0, 38).unwrap_err()),
        "mantissa out of bounds for rust_decimal"
    );
    assert_eq!(
        serialize_message(mantissa_to_column_scale(i128::MIN, 0, 1).unwrap_err()),
        "mantissa out of bounds for rust_decimal"
    );
}

#[test]
fn to_sql_without_hint_writes_a_128_bit_decimal() {
    let v = Decimal::new(-12345, 2).to_sql(None).unwrap();
    assert_eq!(v, Value::Decimal128(2, -12345));
}

#[test]
fn to_sql_writes_at_the_column_scale() {
    let v = Decimal::new(12345, 2).to_sql(Some(&Type::Decimal32(5))).unwrap();
    assert_eq!(v, Value::Decimal32(5, 12_345_000));
    let v = Decimal::new(-7, 0).to_sql(Some(&Type::Decimal64(10))).unwrap();
    assert_eq!(v, Value::Decimal64(10, -70_000_000_000));
    let v = Decimal::new(1, 3).to_sql(Some(&Type::Decimal128(3))).unwrap();
    assert_eq!(v, Value::Decimal128(3, 1));
}

#[test]
fn to_sql_refuses_what_the_column_cannot_hold() {
    let err = Decimal::from(21_475).to_sql(Some(&Type::Decimal32(5))).unwrap_err();
    assert_eq!(serialize_message(err), "Decimal32 out of bounds for rust_decimal");
    let err = Decimal::from(-100_000_000).to_sql(Some(&Type::Decimal64(12))).unwrap_err();
    assert_eq!(serialize_message(err), "Decimal64 out of bounds for rust_decimal");
    let err = Decimal::new(1, 6).to_sql(Some(&Type::Decimal64(5))).unwrap_err();
    assert_eq!(serialize_message(err), "unexpected type: Decimal64(5)");
    let err = Decimal::new(1, 0).to_sql(Some(&Type::Int32)).unwrap_err();
    assert_eq!(serialize_message(err), "unexpected type: Int32");
}

#[test]
fn roundtrip_keeps_the_number() {
    let column_types = [
        Type::Decimal32(0),
        Type::Decimal32(9),
        Type::Decimal64(18),
        Type::Decimal128(0),
        Type::Decimal128(28),
        Type::Decimal128(38),
    ];
    let values = [
        Decimal::new(1, 0),
        Decimal::new(-42, 1),
        Decimal::new(999_999, 6),
    ];
    for column_type in column_types.iter() {
        for value in values.iter() {
            if let Ok(stored) = value.to_sql(Some(column_type)) {
                let back = Decimal::from_sql(column_type, stored).unwrap();
                assert_eq!(back, *value, "{column_type:?} {value:?}");
            }
        }
    }
    let stored = Decimal::new(123, 2).to_sql(None).unwrap();
    let back = Decimal::from_sql(&Type::String, stored).unwrap();
    assert_eq!(parts(&back), (123, 2));
}

#[test]
fn roundtrip_of_zero_above_scale_28_is_refused() {
    let column_type = Type::Decimal128(29);
    let stored = Decimal::zero().to_sql(Some(&column_type)).unwrap();
    assert_eq!(stored, Value::Decimal128(29, 0));
    assert!(Decimal::from_sql(&column_type, stored).is_err());
}
