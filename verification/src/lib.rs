//! Conversion between fixed-point decimals and the ClickHouse decimal wire
//! values, with the arithmetic that keeps the number exact.
//!
//! - `valuation`: trailing factors of 2, 5 and 10 of an integer, and powers of ten;
//! - `decimal`: the decimal type (96-bit mantissa, scale up to 28);
//! - `types`: column types, wire values and errors;
//! - `conversion`: reading decimals from wire values and writing them;
//! - `laws`: properties that relate reading and writing.

pub mod valuation;
pub mod decimal;
pub mod types;
pub mod conversion;
pub mod laws;

pub use decimal::{Decimal, DecimalError, MAX_I128_REPR, MAX_SCALE};
pub use types::{KlickhouseError, Result, Type, Value};
