//! The serializer: what every node of the SQL tree implements to be rendered
//! as SQL text.

use vstd::prelude::*;

use crate::sql::error::Error;

verus! {

/// Implemented for all nodes in the SQL tree.
pub trait ToSql {
    /// The SQL text of this node. `None` where the node has no SQL text,
    /// which is the case exactly where a binary large object occurs in it as
    /// a literal.
    spec fn sql_text(&self) -> Option<Seq<char>>;

    /// Appends the SQL text of this node to `f`.
    ///
    /// # Errors
    /// Fails with [`Error::NotImplemented`] where the node has no SQL text.
    /// Nothing is written to `f` then.
    fn fmt_sql(&self, f: &mut String) -> (r: Result<(), Error>)
        ensures
            self.sql_text() matches Some(text) ==> r is Ok && final(f)@ == old(f)@ + text,
            self.sql_text() is None ==> r == Err::<(), Error>(Error::NotImplemented) && final(f)@
                == old(f)@,
    ;
}

/// Renders a [`ToSql`]-enabled node on request.
pub struct ToSqlFormatter<'o, O> {
    /// The object to serialize.
    obj: &'o O,
}

impl<'o, O: ToSql> ToSqlFormatter<'o, O> {
    /// The node that this formatter renders.
    pub closed spec fn node(&self) -> &'o O {
        self.obj
    }

    /// Renders the node to a string of its own: the rendering has no
    /// trailing newline, and that of a statement ends in `;`.
    ///
    /// # Errors
    /// Fails with [`Error::NotImplemented`] where the node has no SQL text.
    pub fn to_sql(&self) -> (r: Result<String, Error>)
        ensures
            self.node().sql_text() matches Some(text) ==> r is Ok && r->Ok_0@ == text,
            self.node().sql_text() is None ==> r == Err::<String, Error>(Error::NotImplemented),
    {
        let mut out = String::new();
        match self.obj.fmt_sql(&mut out) {
            Ok(()) => {
                assert(out@ =~= self.node().sql_text()->0);
                Ok(out)
            },
            Err(err) => Err(err),
        }
    }
}

/// Allows a given [`ToSql`]-enabled node to be serialized.
///
/// # Arguments
/// - `obj`: The [`ToSql`]-like node that will be serialized.
///
/// # Returns
/// A [`ToSqlFormatter`] that does the actual formatting.
pub fn serialize_sql<O: ToSql>(obj: &O) -> (r: ToSqlFormatter<'_, O>)
    ensures
        r.node() == obj,
{
    ToSqlFormatter { obj }
}

} // verus!
