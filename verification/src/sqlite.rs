//! The decisions of a connector to an SQLite database file.
//!
//! The connector itself opens the file, runs the initialization code and
//! sends the queries. What it has to do next, and what a failure is reported
//! as, is decided here: a [`Database`] is the state of one such connector,
//! and each of its methods takes what the connector observed and gives the
//! state that follows.

use vstd::prelude::*;

use crate::sql::serialize::{serialize_sql, ToSql};
use crate::sql::statement::Statement;

verus! {

/// Defines errors originating in the SQLite [`Database`]. Paths and the
/// causes that the backend gave are held as text.
#[derive(Debug, PartialEq, Eq)]
#[allow(inconsistent_fields)]
pub enum Error {
    /// Failed to load the config file.
    ConfigLoad { err: crate::common::Error },
    /// Failed to open the target database file.
    DatabaseOpen { path: String, err: String },
    /// The initialization code failed.
    InitFailed { path: String, err: Box<Error> },
    /// The given statement has no SQL text.
    SerializeFailed { err: crate::sql::error::Error },
    /// Failed to execute the given query.
    ExecuteFailed { query: String, err: String },
}

impl Error {
    /// The text of the message that describes this error.
    pub open spec fn message_text(self) -> Seq<char> {
        match self {
            Error::ConfigLoad { .. } => "Failed to load SQLite configuration file"@,
            Error::DatabaseOpen { path, .. } => "Failed to open database file '"@ + path@ + "'"@,
            Error::InitFailed { path, .. } => "Failed to initialize SQLite database file '"@ + path@
                + "'"@,
            Error::SerializeFailed { .. } => "Failed to write statement as SQL"@,
            Error::ExecuteFailed { query, .. } => "Failed to execute statement '"@ + query@ + "'"@,
        }
    }

    /// The text of the message that describes the cause of this error.
    pub open spec fn source_text(self) -> Seq<char> {
        match self {
            Error::ConfigLoad { err } => err.message_text(),
            Error::DatabaseOpen { err, .. } => err@,
            Error::InitFailed { err, .. } => err.message_text(),
            Error::SerializeFailed { err } => err.message_text(),
            Error::ExecuteFailed { err, .. } => err@,
        }
    }

    /// Returns a message that describes this error.
    pub fn message(&self) -> (r: String)
        ensures
            r@ == self.message_text(),
    {
        let mut out = String::new();
        match self {
            Error::ConfigLoad { .. } => {
                out.append("Failed to load SQLite configuration file");
            },
            Error::DatabaseOpen { path, .. } => {
                out.append("Failed to open database file '");
                out.append(path.as_str());
                out.append("'");
            },
            Error::InitFailed { path, .. } => {
                out.append("Failed to initialize SQLite database file '");
                out.append(path.as_str());
                out.append("'");
            },
            Error::SerializeFailed { .. } => {
                out.append("Failed to write statement as SQL");
            },
            Error::ExecuteFailed { query, .. } => {
                out.append("Failed to execute statement '");
                out.append(query.as_str());
                out.append("'");
            },
        }
        assert(out@ =~= self.message_text());
        out
    }

    /// Returns a message that describes the cause of this error.
    pub fn source(&self) -> (r: String)
        ensures
            r@ == self.source_text(),
    {
        match self {
            Error::ConfigLoad { err } => err.message(),
            Error::DatabaseOpen { err, .. } => err.clone(),
            Error::InitFailed { err, .. } => err.message(),
            Error::SerializeFailed { err } => err.message(),
            Error::ExecuteFailed { err, .. } => err.clone(),
        }
    }
}

/// Defines a file with the SQLite config such that we know how to connect to the database.
#[derive(Clone, Debug, PartialEq, Eq)]
pub struct ConfigFile {
    /// The path to the database file.
    pub path: String,
}

/// How far a connector has come with its database file.
#[derive(Clone, Copy, Debug, PartialEq, Eq, Hash, Structural)]
pub enum Stage {
    /// The file is not opened yet: it is to be opened next.
    Closed,
    /// The file is opened, and did not exist before: the initialization
    /// code is to be run next.
    Initializing,
    /// The file is opened and initialized: nothing is left to do.
    Ready,
}

/// What a [`Database`] holds, as mathematical data.
pub struct DatabaseView {
    /// The path to the database file.
    pub path: Seq<char>,
    /// How far the connector has come.
    pub stage: Stage,
}

/// The state of a connector to an SQLite database file.
#[derive(Clone, Debug, PartialEq, Eq)]
pub struct Database {
    /// The path to the database file.
    path: String,
    /// How far the connector has come.
    stage: Stage,
}

impl View for Database {
    type V = DatabaseView;

    closed spec fn view(&self) -> DatabaseView {
        DatabaseView { path: self.path@, stage: self.stage }
    }
}

impl Database {
    /// Starts a connector to the database file at `path`. Nothing is opened
    /// yet.
    ///
    /// # Arguments
    /// - `path`: The path to the database file.
    ///
    /// # Returns
    /// A new instance of Self at [`Stage::Closed`].
    pub fn new(path: &str) -> (r: Self)
        ensures
            r@ == (DatabaseView { path: path@, stage: Stage::Closed }),
    {
        Database { path: String::from_str(path), stage: Stage::Closed }
    }

    /// Starts a connector to the database file that a configuration file
    /// names.
    ///
    /// # Arguments
    /// - `loaded`: What loading the configuration file gave.
    ///
    /// # Returns
    /// A new instance of Self at [`Stage::Closed`], for the path in the
    /// configuration.
    ///
    /// # Errors
    /// Fails with [`Error::ConfigLoad`], which holds the cause, where the
    /// configuration file could not be loaded.
    pub fn from_path(loaded: Result<ConfigFile, crate::common::Error>) -> (r: Result<Self, Error>)
        ensures
            loaded matches Ok(config) ==> r is Ok && r->Ok_0@ == (DatabaseView {
                path: config.path@,
                stage: Stage::Closed,
            }),
            loaded matches Err(cause) ==> r == Err::<Self, Error>(Error::ConfigLoad { err: cause }),
    {
        match loaded {
            Ok(config) => Ok(Database { path: config.path, stage: Stage::Closed }),
            Err(err) => Err(Error::ConfigLoad { err }),
        }
    }

    /// Returns the path to the database file.
    pub fn path(&self) -> (r: &str)
        ensures
            r@ == self@.path,
    {
        self.path.as_str()
    }

    /// Returns how far the connector has come, which tells what it has to
    /// do next.
    pub fn stage(&self) -> (r: Stage)
        ensures
            r == self@.stage,
    {
        self.stage
    }

    /// Takes note of how opening the database file went.
    ///
    /// # Arguments
    /// - `existed`: Whether the file existed before it was opened.
    /// - `outcome`: `Err` with the cause where opening failed.
    ///
    /// # Returns
    /// The connector at [`Stage::Ready`] where the file existed before, else
    /// at [`Stage::Initializing`]: a file that was not there is initialized
    /// before use.
    ///
    /// # Errors
    /// Fails with [`Error::DatabaseOpen`] where opening failed.
    pub fn opened(self, existed: bool, outcome: Result<(), String>) -> (r: Result<Self, Error>)
        ensures
            outcome is Ok ==> r is Ok && r->Ok_0@ == (DatabaseView {
                path: self@.path,
                stage: if existed {
                    Stage::Ready
                } else {
                    Stage::Initializing
                },
            }),
            outcome matches Err(cause) ==> r matches Err(Error::DatabaseOpen { path, err }) && path@
                == self@.path && err == cause,
    {
        match outcome {
            Ok(()) => Ok(
                Database {
                    path: self.path,
                    stage: if existed {
                        Stage::Ready
                    } else {
                        Stage::Initializing
                    },
                },
            ),
            Err(err) => Err(Error::DatabaseOpen { path: self.path, err }),
        }
    }

    /// Takes note of how the initialization code went.
    ///
    /// # Arguments
    /// - `outcome`: `Err` with the cause where the initialization failed.
    ///
    /// # Returns
    /// The connector at [`Stage::Ready`].
    ///
    /// # Errors
    /// Fails with [`Error::InitFailed`], which holds the cause, where the
    /// initialization failed.
    pub fn initialized(self, outcome: Result<(), Error>) -> (r: Result<Self, Error>)
        ensures
            outcome is Ok ==> r is Ok && r->Ok_0@ == (DatabaseView {
                path: self@.path,
                stage: Stage::Ready,
            }),
            outcome matches Err(cause) ==> r matches Err(Error::InitFailed { path, err }) && path@
                == self@.path && *err == cause,
    {
        match outcome {
            Ok(()) => Ok(Database { path: self.path, stage: Stage::Ready }),
            Err(err) => Err(Error::InitFailed { path: self.path, err: Box::new(err) }),
        }
    }

    /// Prepares the given SQL [`Statement`] for the backend.
    ///
    /// Note that the query is serialized as-is.
    ///
    /// # Arguments
    /// - `stmt`: The [`Statement`] to execute.
    ///
    /// # Returns
    /// The text of the query to send.
    ///
    /// # Errors
    /// Fails with [`Error::SerializeFailed`], which holds the cause, where
    /// the statement has no SQL text.
    pub fn execute(&self, stmt: &Statement) -> (r: Result<String, Error>)
        ensures
            stmt.sql_text() matches Some(text) ==> r is Ok && r->Ok_0@ == text,
            stmt.sql_text() is None ==> r == Err::<String, Error>(
                Error::SerializeFailed { err: crate::sql::error::Error::NotImplemented },
            ),
    {
        match serialize_sql(stmt).to_sql() {
            Ok(query) => Ok(query),
            Err(err) => Err(Error::SerializeFailed { err }),
        }
    }

    /// Takes note of how the backend answered a query. Any results of the
    /// query are discarded.
    ///
    /// # Arguments
    /// - `query`: The text of the query that was sent.
    /// - `outcome`: `Err` with the cause where the backend refused the query.
    ///
    /// # Errors
    /// Fails with [`Error::ExecuteFailed`], which holds the query and the
    /// cause, where the backend refused the query.
    pub fn executed(query: String, outcome: Result<(), String>) -> (r: Result<(), Error>)
        ensures
            outcome is Ok ==> r is Ok,
            outcome matches Err(cause) ==> r == Err::<(), Error>(
                Error::ExecuteFailed { query, err: cause },
            ),
    {
        match outcome {
            Ok(()) => Ok(()),
            Err(err) => Err(Error::ExecuteFailed { query, err }),
        }
    }
}

} // verus!
