//! Typed SQL literals.

use vstd::prelude::*;

use crate::sql::datetime::{utc_text, UtcDateTime};
use crate::sql::error::Error;
use crate::sql::float::FloatLiteral;
use crate::sql::serialize::ToSql;
use crate::sql::types::Type;
use crate::text::{decimal, push_decimal, push_signed_decimal, signed_decimal};

verus! {

/// Enumerates possible values in SQL.
#[derive(Debug, PartialEq, Eq)]
pub enum Value {
    // Numeric values
    /// A boolean value.
    Boolean(bool),
    /// Signed 64-bit integer value.
    BigInt(i64),
    /// Unsigned 64-bit integer value.
    BigIntUnsigned(u64),
    /// Signed 32-bit integer value.
    Int(i32),
    /// Unsigned 32-bit integer value.
    IntUnsigned(u32),
    /// Signed 16-bit integer value.
    SmallInt(i16),
    /// Unsigned 16-bit integer value.
    SmallIntUnsigned(u16),
    /// Signed 8-bit integer value.
    TinyInt(i8),
    /// Unsigned 8-bit integer value.
    TinyIntUnsigned(u8),
    /// A 32-bit floating-point value, by its decimal text.
    Float(FloatLiteral),
    /// A 64-bit floating-point value, by its decimal text.
    Double(FloatLiteral),

    // String values
    /// String value.
    String(String),

    // Datetime values
    /// Date and/or time value.
    DateTime(UtcDateTime),

    // Miscellaneous values
    /// A large binary object wrapped in a `Blob`.
    Blob(Vec<u8>),
    /// A large character object wrapped in a `Clob`.
    Clob(String),
}

/// The text of a string literal: the text between double quotes, taken as
/// it is.
pub open spec fn quoted(text: Seq<char>) -> Seq<char> {
    "\""@ + text + "\""@
}

/// What a [`Value`] holds, as mathematical data: texts are sequences of
/// characters, a binary large object is a sequence of bytes, and an instant
/// is its seconds and nanoseconds since the epoch.
pub enum ValueView {
    Boolean(bool),
    BigInt(i64),
    BigIntUnsigned(u64),
    Int(i32),
    IntUnsigned(u32),
    SmallInt(i16),
    SmallIntUnsigned(u16),
    TinyInt(i8),
    TinyIntUnsigned(u8),
    Float(Seq<char>),
    Double(Seq<char>),
    String(Seq<char>),
    DateTime { secs: int, nanos: int },
    Blob(Seq<u8>),
    Clob(Seq<char>),
}

impl ValueView {
    /// The data type of this value. The width of a string, a character
    /// large object or a binary large object is the length of what the value
    /// holds: the number of its characters, or of its bytes.
    pub open spec fn type_of(self) -> Type {
        match self {
            ValueView::Boolean(_) => Type::Boolean,
            ValueView::BigInt(_) => Type::BigInt,
            ValueView::BigIntUnsigned(_) => Type::BigIntUnsigned,
            ValueView::Int(_) => Type::Int,
            ValueView::IntUnsigned(_) => Type::IntUnsigned,
            ValueView::SmallInt(_) => Type::SmallInt,
            ValueView::SmallIntUnsigned(_) => Type::SmallIntUnsigned,
            ValueView::TinyInt(_) => Type::TinyInt,
            ValueView::TinyIntUnsigned(_) => Type::TinyIntUnsigned,
            ValueView::Float(_) => Type::Float(32),
            ValueView::Double(_) => Type::Float(64),
            ValueView::String(s) => Type::Character(s.len() as usize),
            ValueView::DateTime { .. } => Type::DateTime,
            ValueView::Blob(b) => Type::Blob(b.len() as usize),
            ValueView::Clob(c) => Type::Clob(c.len() as usize),
        }
    }

    /// The literal that writes this value in SQL; `None` for a binary large
    /// object, which has no literal form.
    ///
    /// A boolean is written `1` or `0`, an integer as its decimal text, a
    /// floating-point number as the decimal text that it is held as, a
    /// string or character large object between double quotes without any
    /// escaping, and an instant as `YYYY-MM-DD HH:MM:SS` in UTC.
    pub open spec fn sql(self) -> Option<Seq<char>> {
        match self {
            ValueView::Boolean(b) => Some(
                if b {
                    "1"@
                } else {
                    "0"@
                },
            ),
            ValueView::BigInt(v) => Some(signed_decimal(v as int)),
            ValueView::BigIntUnsigned(v) => Some(decimal(v as nat)),
            ValueView::Int(v) => Some(signed_decimal(v as int)),
            ValueView::IntUnsigned(v) => Some(decimal(v as nat)),
            ValueView::SmallInt(v) => Some(signed_decimal(v as int)),
            ValueView::SmallIntUnsigned(v) => Some(decimal(v as nat)),
            ValueView::TinyInt(v) => Some(signed_decimal(v as int)),
            ValueView::TinyIntUnsigned(v) => Some(decimal(v as nat)),
            ValueView::Float(text) => Some(text),
            ValueView::Double(text) => Some(text),
            ValueView::String(s) => Some(quoted(s)),
            ValueView::DateTime { secs, nanos } => Some(utc_text(secs, nanos)->0),
            ValueView::Blob(_) => None,
            ValueView::Clob(c) => Some(quoted(c)),
        }
    }
}

impl View for Value {
    type V = ValueView;

    open spec fn view(&self) -> ValueView {
        match *self {
            Value::Boolean(b) => ValueView::Boolean(b),
            Value::BigInt(v) => ValueView::BigInt(v),
            Value::BigIntUnsigned(v) => ValueView::BigIntUnsigned(v),
            Value::Int(v) => ValueView::Int(v),
            Value::IntUnsigned(v) => ValueView::IntUnsigned(v),
            Value::SmallInt(v) => ValueView::SmallInt(v),
            Value::SmallIntUnsigned(v) => ValueView::SmallIntUnsigned(v),
            Value::TinyInt(v) => ValueView::TinyInt(v),
            Value::TinyIntUnsigned(v) => ValueView::TinyIntUnsigned(v),
            Value::Float(literal) => ValueView::Float(literal@),
            Value::Double(literal) => ValueView::Double(literal@),
            Value::String(s) => ValueView::String(s@),
            Value::DateTime(instant) => ValueView::DateTime {
                secs: instant.secs(),
                nanos: instant.nanos(),
            },
            Value::Blob(b) => ValueView::Blob(b@),
            Value::Clob(c) => ValueView::Clob(c@),
        }
    }
}

impl DeepView for Value {
    type V = ValueView;

    open spec fn deep_view(&self) -> ValueView {
        self@
    }
}

impl Clone for Value {
    fn clone(&self) -> (r: Self)
        ensures
            r@ == self@,
    {
        match self {
            Value::Boolean(b) => Value::Boolean(*b),
            Value::BigInt(v) => Value::BigInt(*v),
            Value::BigIntUnsigned(v) => Value::BigIntUnsigned(*v),
            Value::Int(v) => Value::Int(*v),
            Value::IntUnsigned(v) => Value::IntUnsigned(*v),
            Value::SmallInt(v) => Value::SmallInt(*v),
            Value::SmallIntUnsigned(v) => Value::SmallIntUnsigned(*v),
            Value::TinyInt(v) => Value::TinyInt(*v),
            Value::TinyIntUnsigned(v) => Value::TinyIntUnsigned(*v),
            Value::Float(literal) => Value::Float(literal.clone()),
            Value::Double(literal) => Value::Double(literal.clone()),
            Value::String(s) => Value::String(s.clone()),
            Value::DateTime(instant) => Value::DateTime(*instant),
            Value::Blob(b) => {
                let copy = b.clone();
                assert(copy@ =~= b@);
                Value::Blob(copy)
            },
            Value::Clob(c) => Value::Clob(c.clone()),
        }
    }
}

impl Value {
    /// Returns whether this value can be written as a literal in SQL, which
    /// every value but a binary large object can.
    pub fn has_literal(&self) -> (r: bool)
        ensures
            r == self@.sql() is Some,
    {
        match self {
            Value::Blob(_) => false,
            _ => true,
        }
    }

    /// Returns the data type of this value.
    ///
    /// The width of a string-like value is computed from what the value
    /// holds at the time of the call.
    pub fn ty(&self) -> (r: Type)
        ensures
            r == self@.type_of(),
    {
        match self {
            Value::Boolean(_) => Type::Boolean,
            Value::BigInt(_) => Type::BigInt,
            Value::BigIntUnsigned(_) => Type::BigIntUnsigned,
            Value::Int(_) => Type::Int,
            Value::IntUnsigned(_) => Type::IntUnsigned,
            Value::SmallInt(_) => Type::SmallInt,
            Value::SmallIntUnsigned(_) => Type::SmallIntUnsigned,
            Value::TinyInt(_) => Type::TinyInt,
            Value::TinyIntUnsigned(_) => Type::TinyIntUnsigned,
            Value::Float(_) => Type::Float(32),
            Value::Double(_) => Type::Float(64),
            Value::String(s) => Type::Character(s.as_str().unicode_len()),
            Value::DateTime(_) => Type::DateTime,
            Value::Blob(b) => Type::Blob(b.len()),
            Value::Clob(c) => Type::Clob(c.as_str().unicode_len()),
        }
    }
}

/// Appends `text` between double quotes to `f`.
fn push_quoted(f: &mut String, text: &str)
    ensures
        final(f)@ == old(f)@ + quoted(text@),
{
    f.append("\"");
    f.append(text);
    f.append("\"");
    assert(final(f)@ =~= old(f)@ + quoted(text@));
}

impl ToSql for Value {
    open spec fn sql_text(&self) -> Option<Seq<char>> {
        self@.sql()
    }

    fn fmt_sql(&self, f: &mut String) -> (r: Result<(), Error>) {
        match self {
            Value::Boolean(b) => f.append(
                if *b {
                    "1"
                } else {
                    "0"
                },
            ),
            Value::BigInt(v) => push_signed_decimal(f, *v),
            Value::BigIntUnsigned(v) => push_decimal(f, *v),
            Value::Int(v) => push_signed_decimal(f, *v as i64),
            Value::IntUnsigned(v) => push_decimal(f, *v as u64),
            Value::SmallInt(v) => push_signed_decimal(f, *v as i64),
            Value::SmallIntUnsigned(v) => push_decimal(f, *v as u64),
            Value::TinyInt(v) => push_signed_decimal(f, *v as i64),
            Value::TinyIntUnsigned(v) => push_decimal(f, *v as u64),
            Value::Float(literal) => literal.write_sql(f),
            Value::Double(literal) => literal.write_sql(f),
            Value::String(s) => push_quoted(f, s.as_str()),
            Value::DateTime(instant) => instant.write_sql(f),
            Value::Blob(_) => {
                return Err(Error::NotImplemented);
            },
            Value::Clob(c) => push_quoted(f, c.as_str()),
        }
        Ok(())
    }
}

} // verus!
