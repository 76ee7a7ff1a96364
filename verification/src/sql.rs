//! A typed abstract syntax tree for SQL statements and its serializer.
//!
//! Types and values come from closed catalogs; a column definition can only
//! be built through setters that keep its default value compatible with its
//! declared type; and every node renders to one exact SQL text.

pub mod column;
pub mod datetime;
pub mod error;
pub mod float;
pub mod legacy;
pub mod serialize;
pub mod statement;
pub mod types;
pub mod value;

pub use column::{ColumnDef, ColumnDefView};
pub use datetime::UtcDateTime;
pub use error::Error;
pub use float::FloatLiteral;
pub use legacy::parse_legacy_type;
pub use serialize::{serialize_sql, ToSql, ToSqlFormatter};
pub use statement::{Statement, StatementCreateTable, StatementUseDatabase};
pub use types::Type;
pub use value::{Value, ValueView};
