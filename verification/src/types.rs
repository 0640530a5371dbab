//! Column types, wire values and errors of the ClickHouse protocol, as far
//! as decimal conversion reads and writes them.

use vstd::prelude::*;
use vstd::string::*;

verus! {

/// A ClickHouse column type.
#[derive(Debug, Clone, Copy, PartialEq, Eq, Structural)]
pub enum Type {
    Int8,
    Int16,
    Int32,
    Int64,
    Int128,
    UInt8,
    UInt16,
    UInt32,
    UInt64,
    UInt128,
    /// A 32-bit fixed-point decimal with the given scale.
    Decimal32(usize),
    /// A 64-bit fixed-point decimal with the given scale.
    Decimal64(usize),
    /// A 128-bit fixed-point decimal with the given scale.
    Decimal128(usize),
    String,
    FixedString(usize),
    Uuid,
    Date,
}

/// A value as it travels on the wire.
#[derive(Debug, Clone, PartialEq)]
pub enum Value {
    Int8(i8),
    Int16(i16),
    Int32(i32),
    Int64(i64),
    Int128(i128),
    UInt8(u8),
    UInt16(u16),
    UInt32(u32),
    UInt64(u64),
    UInt128(u128),
    /// Column scale and mantissa: the number is `mantissa / 10^scale`.
    Decimal32(usize, i32),
    /// Column scale and mantissa: the number is `mantissa / 10^scale`.
    Decimal64(usize, i64),
    /// Column scale and mantissa: the number is `mantissa / 10^scale`.
    Decimal128(usize, i128),
    String(Vec<u8>),
    Null,
}

/// An error of the client.
#[derive(Debug, Clone, PartialEq, Eq)]
pub enum KlickhouseError {
    /// A value could not be written to the wire.
    SerializeError(String),
    /// A wire value could not be read.
    DeserializeError(String),
}

/// The content of an error: its kind and its message.
pub enum ErrorModel {
    SerializeError(Seq<char>),
    DeserializeError(Seq<char>),
}

impl View for KlickhouseError {
    type V = ErrorModel;

    open spec fn view(&self) -> ErrorModel {
        match self {
            KlickhouseError::SerializeError(m) => ErrorModel::SerializeError(m@),
            KlickhouseError::DeserializeError(m) => ErrorModel::DeserializeError(m@),
        }
    }
}

/// The result type of the client.
pub type Result<T> = core::result::Result<T, KlickhouseError>;

/// The text of a decimal digit.
pub open spec fn digit_text(d: nat) -> Seq<char> {
    if d == 0 {
        "0"@
    } else if d == 1 {
        "1"@
    } else if d == 2 {
        "2"@
    } else if d == 3 {
        "3"@
    } else if d == 4 {
        "4"@
    } else if d == 5 {
        "5"@
    } else if d == 6 {
        "6"@
    } else if d == 7 {
        "7"@
    } else if d == 8 {
        "8"@
    } else {
        "9"@
    }
}

/// The decimal representation of `n`, without leading zeros.
pub open spec fn decimal_text(n: nat) -> Seq<char>
    decreases n,
{
    if n < 10 {
        digit_text(n)
    } else {
        decimal_text(n / 10) + digit_text(n % 10)
    }
}

fn digit_str(d: usize) -> (s: &'static str)
    requires
        d < 10,
    ensures
        s@ == digit_text(d as nat),
{
    if d == 0 {
        "0"
    } else if d == 1 {
        "1"
    } else if d == 2 {
        "2"
    } else if d == 3 {
        "3"
    } else if d == 4 {
        "4"
    } else if d == 5 {
        "5"
    } else if d == 6 {
        "6"
    } else if d == 7 {
        "7"
    } else if d == 8 {
        "8"
    } else {
        "9"
    }
}

/// The decimal representation of `n`.
pub fn decimal_string(n: usize) -> (s: String)
    ensures
        s@ == decimal_text(n as nat),
    decreases n,
{
    if n < 10 {
        String::from_str(digit_str(n))
    } else {
        let mut s = decimal_string(n / 10);
        s.append(digit_str(n % 10));
        s
    }
}

/// A type with a parameter, written as `name(parameter)`.
pub open spec fn parameterized_text(name: Seq<char>, parameter: usize) -> Seq<char> {
    name + "("@ + decimal_text(parameter as nat) + ")"@
}

/// The name of a type, as ClickHouse writes it.
pub open spec fn type_text(t: Type) -> Seq<char> {
    match t {
        Type::Int8 => "Int8"@,
        Type::Int16 => "Int16"@,
        Type::Int32 => "Int32"@,
        Type::Int64 => "Int64"@,
        Type::Int128 => "Int128"@,
        Type::UInt8 => "UInt8"@,
        Type::UInt16 => "UInt16"@,
        Type::UInt32 => "UInt32"@,
        Type::UInt64 => "UInt64"@,
        Type::UInt128 => "UInt128"@,
        Type::Decimal32(s) => parameterized_text("Decimal32"@, s),
        Type::Decimal64(s) => parameterized_text("Decimal64"@, s),
        Type::Decimal128(s) => parameterized_text("Decimal128"@, s),
        Type::String => "String"@,
        Type::FixedString(n) => parameterized_text("FixedString"@, n),
        Type::Uuid => "UUID"@,
        Type::Date => "Date"@,
    }
}

fn parameterized_string(name: &str, parameter: usize) -> (s: String)
    ensures
        s@ == parameterized_text(name@, parameter),
{
    let mut s = String::from_str(name);
    s.append("(");
    let digits = decimal_string(parameter);
    s.append(digits.as_str());
    s.append(")");
    s
}

impl Type {
    /// The name of the type, as ClickHouse writes it.
    pub fn name(&self) -> (s: String)
        ensures
            s@ == type_text(*self),
    {
        match self {
            Type::Int8 => String::from_str("Int8"),
            Type::Int16 => String::from_str("Int16"),
            Type::Int32 => String::from_str("Int32"),
            Type::Int64 => String::from_str("Int64"),
            Type::Int128 => String::from_str("Int128"),
            Type::UInt8 => String::from_str("UInt8"),
            Type::UInt16 => String::from_str("UInt16"),
            Type::UInt32 => String::from_str("UInt32"),
            Type::UInt64 => String::from_str("UInt64"),
            Type::UInt128 => String::from_str("UInt128"),
            Type::Decimal32(s) => parameterized_string("Decimal32", *s),
            Type::Decimal64(s) => parameterized_string("Decimal64", *s),
            Type::Decimal128(s) => parameterized_string("Decimal128", *s),
            Type::String => String::from_str("String"),
            Type::FixedString(n) => parameterized_string("FixedString", *n),
            Type::Uuid => String::from_str("UUID"),
            Type::Date => String::from_str("Date"),
        }
    }
}

/// The message of an error about an unexpected type.
pub open spec fn unexpected_type_text(t: Type) -> Seq<char> {
    "unexpected type: "@ + type_text(t)
}

/// The error for a wire value of a type that cannot be read as asked.
pub fn unexpected_type(type_: &Type) -> (e: KlickhouseError)
    ensures
        e@ == ErrorModel::DeserializeError(unexpected_type_text(*type_)),
{
    let mut message = String::from_str("unexpected type: ");
    let name = type_.name();
    message.append(name.as_str());
    KlickhouseError::DeserializeError(message)
}

} // verus!
