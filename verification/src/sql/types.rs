//! The catalog of SQL data types and the compatibility relation on it.

use vstd::prelude::*;

use crate::sql::error::Error;
use crate::sql::serialize::ToSql;
use crate::text::{decimal, push_decimal};

verus! {

/// Enumerates possible data types in SQL.
#[derive(Clone, Copy, Debug, PartialEq, Eq, Hash, Structural)]
pub enum Type {
    // Numeric types
    /// A boolean (akin to `bool`).
    Boolean,
    /// Signed 64-bit integer (akin to `i64`).
    BigInt,
    /// Unsigned 64-bit integer (akin to `u64`).
    BigIntUnsigned,
    /// Signed 32-bit integer (akin to `i32`).
    Int,
    /// Unsigned 32-bit integer (akin to `u32`).
    IntUnsigned,
    /// Signed 16-bit integer (akin to `i16`).
    SmallInt,
    /// Unsigned 16-bit integer (akin to `u16`).
    SmallIntUnsigned,
    /// Signed 8-bit integer (akin to `i8`).
    TinyInt,
    /// Unsigned 8-bit integer (akin to `u8`).
    TinyIntUnsigned,
    /// A floating-point value with a given precision (in number of bits).
    Float(usize),
    /// A 64-bit floating-point value.
    Real,

    // String types
    /// A fixed-length array of characters. Smaller strings are padded with blank characters.
    Character(usize),
    /// A fixed-length array of characters, except that it also stores strings smaller than its size.
    VarChar(usize),

    // Date/time types
    /// Defines a date-only time store.
    Date,
    /// Defines a time-only time store.
    Time,
    /// Combines date and time values into one time store.
    DateTime,

    // Miscellaneous
    /// Defines a Binary Large Object of the given number of bytes.
    Blob(usize),
    /// Defines a Character Large Object of the given number of characters.
    Clob(usize),
}

impl Type {
    /// Whether this is one of the eight integer types.
    pub open spec fn is_integer(self) -> bool {
        self.integer_bits() is Some
    }

    /// The width in bits of an integer type; `None` for every other type.
    pub open spec fn integer_bits(self) -> Option<nat> {
        match self {
            Type::TinyInt | Type::TinyIntUnsigned => Some(8),
            Type::SmallInt | Type::SmallIntUnsigned => Some(16),
            Type::Int | Type::IntUnsigned => Some(32),
            Type::BigInt | Type::BigIntUnsigned => Some(64),
            _ => None,
        }
    }

    /// Whether this is one of the four unsigned integer types.
    pub open spec fn is_unsigned(self) -> bool {
        self is TinyIntUnsigned || self is SmallIntUnsigned || self is IntUnsigned
            || self is BigIntUnsigned
    }

    /// Whether this is a floating-point type: `Float` of any precision, or `Real`.
    pub open spec fn is_floating(self) -> bool {
        self is Float || self is Real
    }

    /// Whether this is a numeric type: an integer or a floating-point type.
    /// `Boolean` casts into every numeric type but is not one itself.
    pub open spec fn is_numeric(self) -> bool {
        self.is_integer() || self.is_floating()
    }

    /// The width in characters of a string-like type (`Character`, `VarChar`
    /// or `Clob`); `None` for every other type.
    pub open spec fn text_width(self) -> Option<usize> {
        match self {
            Type::Character(n) | Type::VarChar(n) | Type::Clob(n) => Some(n),
            _ => None,
        }
    }

    /// The compatibility relation: whether a value declared as `self` may
    /// stand where `other` is expected. The relation is directed: it holds
    /// from a type to itself and to the types that it widens into, never
    /// back.
    pub open spec fn compatible(self, other: Type) -> bool {
        ||| self == other
        ||| self is Boolean && other.is_numeric()
        ||| self.is_integer() && other.is_integer() && self.is_unsigned() == other.is_unsigned()
            && self.integer_bits()->0 < other.integer_bits()->0
        ||| self.is_integer() && other.is_floating()
        ||| self.text_width() is Some && other.text_width() is Some && self.text_width()->0
            <= other.text_width()->0
        ||| (self is Date || self is Time) && other is DateTime
    }

    /// The canonical SQL spelling of this type.
    ///
    /// A character large object is declared as a `BLOB` column of its width,
    /// like a binary one.
    pub open spec fn sql(self) -> Seq<char> {
        match self {
            Type::Boolean => "BIT"@,
            Type::BigInt => "BIGINT"@,
            Type::BigIntUnsigned => "BIGINT UNSIGNED"@,
            Type::Int => "INT"@,
            Type::IntUnsigned => "INT UNSIGNED"@,
            Type::SmallInt => "SMALLINT"@,
            Type::SmallIntUnsigned => "SMALLINT UNSIGNED"@,
            Type::TinyInt => "TINYINT"@,
            Type::TinyIntUnsigned => "TINYINT UNSIGNED"@,
            Type::Float(bits) => "FLOAT("@ + decimal(bits as nat) + ")"@,
            Type::Real => "REAL"@,
            Type::Character(len) => "CHARACTER("@ + decimal(len as nat) + ")"@,
            Type::VarChar(len) => "VARCHAR("@ + decimal(len as nat) + ")"@,
            Type::Date => "DATE"@,
            Type::Time => "TIME"@,
            Type::DateTime => "TIMESTAMP"@,
            Type::Blob(size) => "BLOB("@ + decimal(size as nat) + ")"@,
            Type::Clob(len) => "BLOB("@ + decimal(len as nat) + ")"@,
        }
    }

    /// Returns whether this type is compatible with the given type, that is,
    /// whether it trivially casts into it.
    pub fn compatible_with(&self, other: &Type) -> (r: bool)
        ensures
            r == self.compatible(*other),
    {
        match (*self, *other) {
            // Booleans are castable to any numeric type
            (
                Type::Boolean,
                Type::BigInt
                | Type::BigIntUnsigned
                | Type::Int
                | Type::IntUnsigned
                | Type::SmallInt
                | Type::SmallIntUnsigned
                | Type::TinyInt
                | Type::TinyIntUnsigned
                | Type::Float(_)
                | Type::Real,
            ) => true,
            // Smaller ints cast to larger ints of the same signedness
            (Type::TinyInt, Type::SmallInt | Type::Int | Type::BigInt)
            | (
                Type::TinyIntUnsigned,
                Type::SmallIntUnsigned | Type::IntUnsigned | Type::BigIntUnsigned,
            )
            | (Type::SmallInt, Type::Int | Type::BigInt)
            | (Type::SmallIntUnsigned, Type::IntUnsigned | Type::BigIntUnsigned)
            | (Type::Int, Type::BigInt)
            | (Type::IntUnsigned, Type::BigIntUnsigned) => true,
            // Ints cast to reals
            (
                Type::TinyInt
                | Type::TinyIntUnsigned
                | Type::SmallInt
                | Type::SmallIntUnsigned
                | Type::Int
                | Type::IntUnsigned
                | Type::BigInt
                | Type::BigIntUnsigned,
                Type::Float(_) | Type::Real,
            ) => true,
            // Strings cast to each other if their size permits
            (
                Type::Character(llen) | Type::VarChar(llen) | Type::Clob(llen),
                Type::Character(rlen) | Type::VarChar(rlen) | Type::Clob(rlen),
            ) => llen <= rlen,
            // Dates and times upcast to date-times
            (Type::Date | Type::Time, Type::DateTime) => true,
            // Otherwise, only equal types are compatible
            (this, other) => this == other,
        }
    }

    /// Appends the canonical SQL spelling of this type to `f`.
    pub fn write_sql(&self, f: &mut String)
        ensures
            final(f)@ == old(f)@ + self.sql(),
    {
        match *self {
            Type::Boolean => f.append("BIT"),
            Type::BigInt => f.append("BIGINT"),
            Type::BigIntUnsigned => f.append("BIGINT UNSIGNED"),
            Type::Int => f.append("INT"),
            Type::IntUnsigned => f.append("INT UNSIGNED"),
            Type::SmallInt => f.append("SMALLINT"),
            Type::SmallIntUnsigned => f.append("SMALLINT UNSIGNED"),
            Type::TinyInt => f.append("TINYINT"),
            Type::TinyIntUnsigned => f.append("TINYINT UNSIGNED"),
            Type::Float(bits) => push_sized(f, "FLOAT(", bits),
            Type::Real => f.append("REAL"),
            Type::Character(len) => push_sized(f, "CHARACTER(", len),
            Type::VarChar(len) => push_sized(f, "VARCHAR(", len),
            Type::Date => f.append("DATE"),
            Type::Time => f.append("TIME"),
            Type::DateTime => f.append("TIMESTAMP"),
            Type::Blob(size) => push_sized(f, "BLOB(", size),
            Type::Clob(len) => push_sized(f, "BLOB(", len),
        }
    }
}

impl ToSql for Type {
    /// Every type has a spelling.
    open spec fn sql_text(&self) -> Option<Seq<char>> {
        Some(self.sql())
    }

    fn fmt_sql(&self, f: &mut String) -> (r: Result<(), Error>) {
        self.write_sql(f);
        Ok(())
    }
}

/// Compatibility is reflexive: every type is compatible with itself.
pub proof fn lemma_compatible_reflexive(t: Type)
    ensures
        t.compatible(t),
{
}

/// Compatibility is transitive: where `a` casts into `b` and `b` into `c`,
/// `a` casts into `c` directly. In particular each step of the chains
/// `TinyInt`, `SmallInt`, `Int`, `BigInt` and of their unsigned mirror
/// composes.
pub proof fn lemma_compatible_transitive(a: Type, b: Type, c: Type)
    requires
        a.compatible(b),
        b.compatible(c),
    ensures
        a.compatible(c),
{
}

/// Compatibility never narrows back: two different types are never
/// compatible in both directions, unless both are string-like types of one
/// width.
pub proof fn lemma_compatible_antisymmetric(a: Type, b: Type)
    requires
        a.compatible(b),
        b.compatible(a),
    ensures
        a == b || (a.text_width() is Some && a.text_width() == b.text_width()),
{
}

/// `Boolean` is compatible with every numeric type, and no numeric type is
/// compatible with `Boolean`.
pub proof fn lemma_boolean_and_numeric(t: Type)
    requires
        t.is_numeric(),
    ensures
        Type::Boolean.compatible(t),
        !t.compatible(Type::Boolean),
{
}

/// Integers never cross between the signed and the unsigned family, and
/// within a family only a narrower one casts into a wider one.
pub proof fn lemma_integer_families(a: Type, b: Type)
    requires
        a.is_integer(),
        b.is_integer(),
    ensures
        a.compatible(b) <==> a.is_unsigned() == b.is_unsigned() && a.integer_bits()->0
            <= b.integer_bits()->0,
{
}

/// A `VarChar(n)` is compatible with a `Character(m)` exactly when
/// `n <= m`; equal widths are compatible.
pub proof fn lemma_varchar_into_character(n: usize, m: usize)
    ensures
        Type::VarChar(n).compatible(Type::Character(m)) <==> n <= m,
{
}

/// Between string-like types the width alone decides, whatever the two
/// kinds (`Character`, `VarChar` or `Clob`) are.
pub proof fn lemma_text_width_decides(a: Type, b: Type)
    requires
        a.text_width() is Some,
        b.text_width() is Some,
    ensures
        a.compatible(b) <==> a.text_width()->0 <= b.text_width()->0,
{
}

/// `Date` and `Time` widen into `DateTime`, which widens into nothing but
/// itself.
pub proof fn lemma_date_time_widen(t: Type)
    ensures
        Type::Date.compatible(Type::DateTime),
        Type::Time.compatible(Type::DateTime),
        Type::DateTime.compatible(t) <==> t == Type::DateTime,
{
}

/// Appends `keyword`, the decimal text of `size` and a closing parenthesis
/// to `f`: the spelling of a type with a width.
fn push_sized(f: &mut String, keyword: &str, size: usize)
    ensures
        final(f)@ == old(f)@ + (keyword@ + decimal(size as nat) + ")"@),
{
    f.append(keyword);
    push_decimal(f, size as u64);
    f.append(")");
    assert(final(f)@ =~= old(f)@ + (keyword@ + decimal(size as nat) + ")"@));
}

} // verus!
