# klickhouse decimal conversions

Reading fixed-point decimals from ClickHouse `Decimal32/64/128` wire values
and writing them back, verified with Verus.

- `src/valuation.rs`: trailing factors of 2, 5 and 10; powers of ten.
- `src/decimal.rs`: the decimal type (96-bit mantissa, scale at most 28),
  with `rust_decimal` deciding which mantissa and scale it accepts.
- `src/types.rs`: column types, wire values, errors and their messages.
- `src/conversion.rs`: `Decimal::from_sql`, `Decimal::to_sql` and their helpers.
- `src/laws.rs`: write-then-read gives back the same number, completeness
  of reading, equality of numbers.
- `app/lib.rs`: the same conversions for `rust_decimal::Decimal` values.
