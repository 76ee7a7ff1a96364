//! The legacy vocabulary of column types: a named subset of the catalog,
//! with the texts by which its members are written and read.

use vstd::prelude::*;

use crate::sql::error::Error;
use crate::sql::types::Type;
use crate::text::{
    eq_ignore_ascii_case, lemma_eq_ignore_ascii_case_equivalence, str_eq_ignore_ascii_case,
};

verus! {

impl Type {
    /// Whether this type belongs to the legacy vocabulary, which knows two
    /// types only: the one-byte signed integer and the unsigned integer.
    pub open spec fn is_legacy(self) -> bool {
        self is TinyInt || self is IntUnsigned
    }

    /// Returns whether this type belongs to the legacy vocabulary.
    pub fn in_legacy_vocabulary(&self) -> (r: bool)
        ensures
            r == self.is_legacy(),
    {
        match self {
            Type::TinyInt | Type::IntUnsigned => true,
            _ => false,
        }
    }
}

/// The legacy type that `raw` spells, if any. A type of the legacy
/// vocabulary is spelled as the catalog writes it, in any mix of upper and
/// lower case.
pub open spec fn legacy_type_named(raw: Seq<char>) -> Option<Type> {
    if eq_ignore_ascii_case(raw, Type::TinyInt.sql()) {
        Some(Type::TinyInt)
    } else if eq_ignore_ascii_case(raw, Type::IntUnsigned.sql()) {
        Some(Type::IntUnsigned)
    } else {
        None
    }
}

/// Reads the name of a type of the legacy vocabulary.
///
/// # Errors
/// Fails with [`Error::UnknownTypeIdentifier`], which holds `raw`, where
/// `raw` spells no type of the legacy vocabulary.
pub fn parse_legacy_type(raw: &str) -> (r: Result<Type, Error>)
    ensures
        r is Ok <==> legacy_type_named(raw@) is Some,
        r matches Ok(ty) ==> legacy_type_named(raw@) == Some(ty) && ty.is_legacy(),
        r matches Err(err) ==> err matches Error::UnknownTypeIdentifier { raw: text } && text@
            == raw@,
{
    proof {
        reveal_strlit("TINYINT");
        reveal_strlit("INT UNSIGNED");
    }
    if str_eq_ignore_ascii_case(raw, "TINYINT") {
        Ok(Type::TinyInt)
    } else if str_eq_ignore_ascii_case(raw, "INT UNSIGNED") {
        Ok(Type::IntUnsigned)
    } else {
        Err(Error::UnknownTypeIdentifier { raw: String::from_str(raw) })
    }
}

/// What is written for a type of the legacy vocabulary reads back as that
/// type.
pub proof fn lemma_legacy_round_trip(ty: Type)
    requires
        ty.is_legacy(),
    ensures
        legacy_type_named(ty.sql()) == Some(ty),
{
    reveal_strlit("TINYINT");
    reveal_strlit("INT UNSIGNED");
}

/// Only types of the legacy vocabulary are read, and the case of the
/// letters makes no difference to what is read.
pub proof fn lemma_legacy_names(a: Seq<char>, b: Seq<char>)
    requires
        eq_ignore_ascii_case(a, b),
    ensures
        legacy_type_named(a) == legacy_type_named(b),
        legacy_type_named(a) matches Some(ty) ==> ty.is_legacy(),
{
    let tiny = Type::TinyInt.sql();
    let unsigned = Type::IntUnsigned.sql();
    lemma_eq_ignore_ascii_case_equivalence(a, b, tiny);
    lemma_eq_ignore_ascii_case_equivalence(b, a, tiny);
    lemma_eq_ignore_ascii_case_equivalence(a, b, unsigned);
    lemma_eq_ignore_ascii_case_equivalence(b, a, unsigned);
}

} // verus!
