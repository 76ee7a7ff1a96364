//! The supported SQL statements.

use vstd::prelude::*;

use crate::sql::column::{ColumnDef, ColumnDefView};
use crate::sql::error::Error;
use crate::sql::serialize::ToSql;

verus! {

/// Statement for switching active databases.
///
/// ```sql
/// USE foo;
/// ```
#[derive(Clone, Debug)]
pub struct StatementUseDatabase {
    /// The name of the database to switch to.
    pub name: String,
}

/// The text of the statement that switches to the database `name`.
pub open spec fn use_database_sql(name: Seq<char>) -> Seq<char> {
    "USE "@ + name + ";"@
}

impl ToSql for StatementUseDatabase {
    /// `USE `, the name as it is, and `;`.
    open spec fn sql_text(&self) -> Option<Seq<char>> {
        Some(use_database_sql(self.name@))
    }

    fn fmt_sql(&self, f: &mut String) -> (r: Result<(), Error>) {
        f.append("USE ");
        f.append(self.name.as_str());
        f.append(";");
        assert(final(f)@ =~= old(f)@ + use_database_sql(self.name@));
        Ok(())
    }
}

/// Statement for creating tables.
///
/// ```sql
/// CREATE TABLE "foo" ("bar" INT UNSIGNED, "baz" VARCHAR(32));
/// ```
///
/// The columns are written in their order. Two columns may share a name:
/// that is left to the database to refuse.
#[derive(Clone, Debug)]
pub struct StatementCreateTable {
    /// The name of the table to create.
    pub name: String,
    /// The definitions for each column in the table.
    pub cols: Vec<ColumnDef>,
}

/// Whether every one of the columns has an SQL text.
pub open spec fn columns_have_sql(cols: Seq<ColumnDefView>) -> bool {
    forall|i: int| 0 <= i < cols.len() ==> (#[trigger] cols[i]).sql() is Some
}

/// The texts of the columns in their order, joined by `, `. Where a column
/// has no text, nothing is stated of the result.
pub open spec fn columns_sql(cols: Seq<ColumnDefView>) -> Seq<char>
    decreases cols.len(),
{
    if cols.len() == 0 {
        Seq::empty()
    } else if cols.len() == 1 {
        cols[0].sql()->0
    } else {
        columns_sql(cols.drop_last()) + ", "@ + cols.last().sql()->0
    }
}

/// The text of the statement that creates the table `name` with the columns
/// `cols`: `CREATE TABLE `, the name between double quotes, then the columns
/// between parentheses, and `;`. `None` where a column has no text.
pub open spec fn create_table_sql(name: Seq<char>, cols: Seq<ColumnDefView>) -> Option<Seq<char>> {
    if columns_have_sql(cols) {
        Some("CREATE TABLE \""@ + name + "\" ("@ + columns_sql(cols) + ");"@)
    } else {
        None
    }
}

impl StatementCreateTable {
    /// Returns whether every column of the table can be written as SQL.
    fn columns_have_sql(&self) -> (r: bool)
        ensures
            r == columns_have_sql(self.cols.deep_view()),
    {
        let ghost cols = self.cols.deep_view();
        let mut i: usize = 0;
        while i < self.cols.len()
            invariant
                i <= self.cols.len(),
                cols == self.cols.deep_view(),
                forall|k: int| 0 <= k < i ==> (#[trigger] cols[k]).sql() is Some,
            decreases self.cols.len() - i,
        {
            if !self.cols[i].has_sql() {
                assert(cols[i as int] == self.cols[i as int]@);
                return false;
            }
            assert(cols[i as int] == self.cols[i as int]@);
            i += 1;
        }
        true
    }
}

impl ToSql for StatementCreateTable {
    open spec fn sql_text(&self) -> Option<Seq<char>> {
        create_table_sql(self.name@, self.cols.deep_view())
    }

    fn fmt_sql(&self, f: &mut String) -> (r: Result<(), Error>) {
        // Settle first whether every column can be written at all
        if !self.columns_have_sql() {
            return Err(Error::NotImplemented);
        }
        let ghost cols = self.cols.deep_view();
        let ghost head = old(f)@ + "CREATE TABLE \""@ + self.name@ + "\" ("@;

        // Write the statement up to the columns
        f.append("CREATE TABLE \"");
        f.append(self.name.as_str());
        f.append("\" (");

        // Serialize the columns
        let mut i: usize = 0;
        while i < self.cols.len()
            invariant
                i <= self.cols.len(),
                cols == self.cols.deep_view(),
                columns_have_sql(cols),
                f@ == head + columns_sql(cols.take(i as int)),
            decreases self.cols.len() - i,
        {
            // Write the separator
            if i > 0 {
                f.append(", ");
            }
            // Write the column definition
            assert(cols[i as int] == self.cols[i as int]@);
            if let Err(err) = self.cols[i].fmt_sql(f) {
                return Err(err);
            }
            proof {
                let next = cols.take(i as int + 1);
                assert(next.drop_last() =~= cols.take(i as int));
                assert(next.last() == cols[i as int]);
                assert(f@ =~= head + columns_sql(next));
            }
            i += 1;
        }

        // Write the closing parenthesis, end
        f.append(");");
        proof {
            assert(cols.take(self.cols.len() as int) =~= cols);
            assert(final(f)@ =~= old(f)@ + create_table_sql(self.name@, cols)->0);
        }
        Ok(())
    }
}

/// Toplevel thing: the SQL-statement
#[derive(Clone, Debug)]
pub enum Statement {
    /// Creates a new table in the currently selected database.
    ///
    /// ```sql
    /// CREATE TABLE "foo" ("bar" INT UNSIGNED, "baz" VARCHAR(32));
    /// ```
    CreateTable(StatementCreateTable),
    /// Tells the database to use a different database.
    ///
    /// ```sql
    /// USE foo;
    /// ```
    UseDatabase(StatementUseDatabase),
}

impl ToSql for Statement {
    /// The text of the statement that this is.
    open spec fn sql_text(&self) -> Option<Seq<char>> {
        match self {
            Statement::CreateTable(ct) => create_table_sql(ct.name@, ct.cols.deep_view()),
            Statement::UseDatabase(ud) => Some(use_database_sql(ud.name@)),
        }
    }

    fn fmt_sql(&self, f: &mut String) -> (r: Result<(), Error>) {
        match self {
            Statement::CreateTable(ct) => ct.fmt_sql(f),
            Statement::UseDatabase(ud) => ud.fmt_sql(f),
        }
    }
}

impl AsRef<Statement> for Statement {
    fn as_ref(&self) -> (r: &Self)
        ensures
            r == self,
    {
        self
    }
}

impl AsMut<Statement> for Statement {
    fn as_mut(&mut self) -> (r: &mut Self)
        ensures
            *r == *old(self),
            *final(self) == *final(r),
    {
        self
    }
}

/// The text of a statement ends in `;`, and nothing follows it: neither a
/// newline nor anything else.
pub proof fn lemma_statement_ends_in_semicolon(stmt: Statement)
    ensures
        stmt.sql_text() matches Some(text) ==> text.len() > 0 && text.last() == ';',
{
    reveal_strlit(";");
    reveal_strlit(");");
}

/// A statement that creates a table has a text exactly when each of its
/// columns has one; a statement that switches databases always has one.
pub proof fn lemma_statement_without_sql(stmt: Statement)
    ensures
        stmt matches Statement::UseDatabase(_) ==> stmt.sql_text() is Some,
        stmt matches Statement::CreateTable(ct) ==> (stmt.sql_text() is None <==> exists|i: int|
            0 <= i < ct.cols.len() && (#[trigger] ct.cols[i])@.sql() is None),
{
    if let Statement::CreateTable(ct) = stmt {
        let cols = ct.cols.deep_view();
        assert forall|i: int| 0 <= i < ct.cols.len() implies #[trigger] cols[i] == ct.cols[i]@ by {}
        if columns_have_sql(cols) {
            assert forall|i: int| 0 <= i < ct.cols.len() implies (#[trigger] ct.cols[i])@.sql()
                is Some by {
                assert(cols[i].sql() is Some);
            }
        } else {
            let i = choose|i: int| 0 <= i < cols.len() && !((#[trigger] cols[i]).sql() is Some);
            assert(ct.cols[i]@.sql() is None);
        }
    }
}

} // verus!
