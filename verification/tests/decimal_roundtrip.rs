use klickhouse::{Decimal, KlickhouseError, Type, Value};

const MAX_I128_REPR: i128 = 0x0000_0000_FFFF_FFFF_FFFF_FFFF_FFFF_FFFF;
const COLUMN_SCALE: u32 = 18;

/// `Decimal(38, 18)` is represented as `Type::Decimal128(18)`.
fn decimal_38_18() -> Type {
    Type::Decimal128(18)
}

fn decimal(mantissa: i128, scale: u32) -> Decimal {
    Decimal::try_from_i128_with_scale(mantissa, scale).expect("valid test decimal")
}

fn max_mantissa_at_scale(scale: u32) -> i128 {
    MAX_I128_REPR / 10i128.pow(COLUMN_SCALE - scale)
}

fn max_mantissa_at_column_scale(column_scale: u32, scale: u32) -> i128 {
    MAX_I128_REPR / 10i128.pow(column_scale - scale)
}

fn roundtrip(value: Decimal, column_type: &Type) -> Decimal {
    let stored = value
        .to_sql(Some(column_type))
        .expect("serializing should succeed");
    Decimal::from_sql(column_type, stored).expect("deserializing should succeed")
}

fn assert_roundtrips(value: Decimal, column_type: &Type) {
    assert_eq!(value, roundtrip(value, column_type), "value = {value:?}");
}

#[test]
fn decimal128_scale_18_roundtrip() {
    let column_type = decimal_38_18();
    assert_roundtrips(Decimal::zero(), &column_type);
    assert_roundtrips(decimal(0, COLUMN_SCALE), &column_type);
    assert_roundtrips(Decimal::new(12345, 2), &column_type);

    assert_roundtrips(Decimal::from(1), &column_type);
    assert_roundtrips(Decimal::from(10_000_000_000i64), &column_type);
    assert_roundtrips(Decimal::from(79_228_162_515i64), &column_type);
    assert_roundtrips(Decimal::from(100_000_000_000i64), &column_type);

    assert_roundtrips(Decimal::from(-10_000_000_000i64), &column_type);
    assert_roundtrips(Decimal::from(-100_000_000_000i64), &column_type);
    assert_roundtrips(decimal(-7_922_816_251_426, 2), &column_type);

    for scale in [0, 1, 2, 9, 17] {
        let max_mantissa = max_mantissa_at_scale(scale);
        assert_roundtrips(decimal(max_mantissa, scale), &column_type);
        assert_roundtrips(decimal(max_mantissa + 1, scale), &column_type);
        assert_roundtrips(decimal(-max_mantissa, scale), &column_type);
        assert_roundtrips(decimal(-max_mantissa - 1, scale), &column_type);
    }

    assert_roundtrips(decimal(12_345, COLUMN_SCALE), &column_type);
    assert_roundtrips(decimal(9_999_999_999, COLUMN_SCALE), &column_type);
    assert_roundtrips(decimal(MAX_I128_REPR, COLUMN_SCALE), &column_type);
    assert_roundtrips(decimal(-MAX_I128_REPR, COLUMN_SCALE), &column_type);
}

#[test]
fn decimal128_scale_18_serialization_errors() {
    let column_type = decimal_38_18();
    let err = decimal(1, COLUMN_SCALE + 1)
        .to_sql(Some(&column_type))
        .expect_err("scale 19 should not serialize to Decimal128(18)");
    assert!(matches!(
        err,
        KlickhouseError::SerializeError(message) if message.contains("unexpected type")
    ));

    let err = Decimal::max_value()
        .to_sql(Some(&column_type))
        .expect_err("Decimal::MAX should not serialize to Decimal128(18)");
    assert!(matches!(
        err,
        KlickhouseError::SerializeError(message) if message.contains("mantissa")
    ));

    let err = decimal(10i128.pow(21), 0)
        .to_sql(Some(&column_type))
        .expect_err("mantissa scaling should overflow i128");
    assert!(matches!(
        err,
        KlickhouseError::SerializeError(message) if message.contains("mantissa")
    ));
}

#[test]
fn decimal32_scale_5_roundtrip() {
    let column_type = Type::Decimal32(5);

    assert_roundtrips(Decimal::zero(), &column_type);
    assert_roundtrips(Decimal::new(12345, 2), &column_type);
    assert_roundtrips(Decimal::from(21_474), &column_type);
    assert_roundtrips(Decimal::from(-21_474), &column_type);
}

#[test]
fn decimal32_from_scaled_wire() {
    let column_type = Type::Decimal32(5);
    let parsed = Decimal::from_sql(&column_type, Value::Decimal32(5, 12_345_000)).unwrap();
    assert_eq!(Decimal::new(12345, 2), parsed);
}

#[test]
fn decimal64_scale_5_roundtrip() {
    let column_type = Type::Decimal64(5);
    let column_scale: u32 = 5;
    let max_mantissa_scale_0 = i64::MAX as i128 / 10i128.pow(column_scale);

    assert_roundtrips(Decimal::zero(), &column_type);
    assert_roundtrips(Decimal::new(12345, 2), &column_type);
    assert_roundtrips(Decimal::from(10_000_000_000i64), &column_type);
    assert_roundtrips(decimal(max_mantissa_scale_0, 0), &column_type);
    assert_roundtrips(decimal(-max_mantissa_scale_0, 0), &column_type);
}

#[test]
fn decimal64_from_scaled_wire() {
    let column_type = Type::Decimal64(5);
    let parsed = Decimal::from_sql(&column_type, Value::Decimal64(5, 12_345_000)).unwrap();
    assert_eq!(Decimal::new(12345, 2), parsed);
}

#[test]
fn decimal_decimal128_scale_18_roundtrip() {
    let column_type = Type::Decimal128(18);
    let column_scale: u32 = 18;

    assert_roundtrips(Decimal::zero(), &column_type);
    assert_roundtrips(decimal(0, column_scale), &column_type);
    assert_roundtrips(Decimal::new(12345, 2), &column_type);

    assert_roundtrips(Decimal::from(1), &column_type);
    assert_roundtrips(Decimal::from(10_000_000_000i64), &column_type);
    assert_roundtrips(Decimal::from(79_228_162_515i64), &column_type);
    assert_roundtrips(Decimal::from(100_000_000_000i64), &column_type);

    assert_roundtrips(Decimal::from(-10_000_000_000i64), &column_type);
    assert_roundtrips(Decimal::from(-100_000_000_000i64), &column_type);
    assert_roundtrips(decimal(-7_922_816_251_426, 2), &column_type);

    for scale in [0, 1, 2, 9, 17] {
        let max_mantissa = max_mantissa_at_column_scale(column_scale, scale);
        assert_roundtrips(decimal(max_mantissa, scale), &column_type);
        assert_roundtrips(decimal(max_mantissa + 1, scale), &column_type);
        assert_roundtrips(decimal(-max_mantissa, scale), &column_type);
        assert_roundtrips(decimal(-max_mantissa - 1, scale), &column_type);
    }

    assert_roundtrips(decimal(12_345, column_scale), &column_type);
    assert_roundtrips(decimal(9_999_999_999, column_scale), &column_type);
    assert_roundtrips(decimal(MAX_I128_REPR, column_scale), &column_type);
    assert_roundtrips(decimal(-MAX_I128_REPR, column_scale), &column_type);
}

#[test]
fn decimal_decimal128_scale_18_serialization_errors() {
    let column_type = Type::Decimal128(18);
    let column_scale: u32 = 18;

    let err = decimal(1, column_scale + 1)
        .to_sql(Some(&column_type))
        .expect_err("scale 19 should not serialize to Decimal128(18)");
    assert!(matches!(
        err,
        KlickhouseError::SerializeError(message) if message.contains("unexpected type")
    ));

    let err = Decimal::max_value()
        .to_sql(Some(&column_type))
        .expect_err("Decimal::MAX should not serialize to Decimal128(18)");
    assert!(matches!(
        err,
        KlickhouseError::SerializeError(message) if message.contains("mantissa")
    ));

    let err = decimal(10i128.pow(21), 0)
        .to_sql(Some(&column_type))
        .expect_err("mantissa scaling should overflow i128");
    assert!(matches!(
        err,
        KlickhouseError::SerializeError(message) if message.contains("mantissa")
    ));
}
