//! A typed model of a small set of SQL statements, and the decisions of the
//! database connectors that are built on it.
//!
//! The [`sql`] module holds the model: the catalog of SQL data types with
//! its directed compatibility relation, typed literal values, validated
//! column definitions, the supported statements, and the serializer that
//! renders each of them to SQL text.
//!
//! The modules [`common`], [`mysql`] and [`sqlite`] hold what the connectors
//! decide: what a configuration file is read as, with which options a
//! server is reached, when a database file is initialized, and what each
//! failure is reported as. They touch no file and no socket: the program
//! that uses them opens, reads and sends, and tells them how that went.
//!
//! Every function is specified over a mathematical model of its arguments
//! and verified against that contract.

pub mod common;
pub mod mysql;
pub mod sql;
pub mod sqlite;
pub mod text;
