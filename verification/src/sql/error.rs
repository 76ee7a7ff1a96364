//! The failures that building and rendering SQL can report.

use vstd::prelude::*;

use crate::sql::types::Type;

verus! {

/// Defines the errors that originate in the SQL model. Each of them is
/// reported to the immediate caller; none aborts.
#[derive(Clone, Debug, PartialEq, Eq)]
pub enum Error {
    /// A value of type `attempted` was given, or would be left, where only a
    /// value compatible with type `required` can stand.
    TypeMismatch { attempted: Type, required: Type },
    /// A text was given as the name of a type, but spells none.
    UnknownTypeIdentifier { raw: String },
    /// The operation is not supported: a binary large object has no literal
    /// form in SQL text.
    NotImplemented,
}

impl Error {
    /// The text of the message that describes this error.
    pub open spec fn message_text(self) -> Seq<char> {
        match self {
            Error::TypeMismatch { attempted, required } => "Cannot use a value of type "@
                + attempted.sql() + " where type "@ + required.sql() + " is required"@,
            Error::UnknownTypeIdentifier { raw } => "Unknown type identifier '"@ + raw@ + "'"@,
            Error::NotImplemented => "Binary large objects cannot be written as SQL literals"@,
        }
    }

    /// Returns a message that describes this error.
    pub fn message(&self) -> (r: String)
        ensures
            r@ == self.message_text(),
    {
        let mut out = String::new();
        match self {
            Error::TypeMismatch { attempted, required } => {
                out.append("Cannot use a value of type ");
                attempted.write_sql(&mut out);
                out.append(" where type ");
                required.write_sql(&mut out);
                out.append(" is required");
            },
            Error::UnknownTypeIdentifier { raw } => {
                out.append("Unknown type identifier '");
                out.append(raw.as_str());
                out.append("'");
            },
            Error::NotImplemented => {
                out.append("Binary large objects cannot be written as SQL literals");
            },
        }
        assert(out@ =~= self.message_text());
        out
    }
}

} // verus!
