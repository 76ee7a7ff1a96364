//! The decisions of a connector to a MySQL server.
//!
//! The connector itself reads the configuration file and creates the
//! connection pool. With which options it connects, and what a failure is
//! reported as, is decided here.

use vstd::prelude::*;

use crate::text::{decimal, push_decimal};

verus! {

/// The port used for MySQL when the user specifies none.
pub open spec fn spec_default_port() -> u16 {
    3306
}

/// Determines the port used for MySQL when the user specifies none.
#[verifier::when_used_as_spec(spec_default_port)]
pub fn default_port() -> (r: u16)
    ensures
        r == spec_default_port(),
{
    3306
}

/// Defines username/password pair credentials.
#[derive(Clone, Debug, PartialEq, Eq)]
pub struct UsernamePassword {
    /// The name of the user.
    pub username: String,
    /// The password of the user.
    pub password: String,
}

/// Defines credentials.
#[derive(Clone, Debug, PartialEq, Eq)]
pub enum Credentials {
    /// It's a username/password pair.
    UsernamePassword(UsernamePassword),
}

/// Defines a file with the MySQL config such that we know how to connect to the database.
#[derive(Clone, Debug, PartialEq, Eq)]
pub struct ConfigFile {
    /// The hostname of the server to connect to.
    pub host: String,
    /// The port of the server to connect to.
    pub port: u16,
    /// The name of the database to connect to.
    pub database: String,
    /// The credentials used to connect to the server.
    pub creds: Credentials,
}

/// The options that a connection pool is created with.
#[derive(Clone, Debug, PartialEq, Eq)]
pub struct Opts {
    /// The address or name of the server.
    pub ip_or_hostname: String,
    /// The port of the server.
    pub tcp_port: u16,
    /// The name of the database to connect to, if any.
    pub db_name: Option<String>,
    /// The name of the user to connect as, if any.
    pub user: Option<String>,
    /// The password of that user, if any.
    pub pass: Option<String>,
}

/// What a set of [`Opts`] holds, as mathematical data.
pub struct OptsView {
    pub ip_or_hostname: Seq<char>,
    pub tcp_port: u16,
    pub db_name: Option<Seq<char>>,
    pub user: Option<Seq<char>>,
    pub pass: Option<Seq<char>>,
}

impl OptsView {
    /// The address that these options lead to: `mysql://`, the server, `:`,
    /// the port in decimal, and, where a database is named, `/` and its
    /// name.
    pub open spec fn url(self) -> Seq<char> {
        "mysql://"@ + self.ip_or_hostname + ":"@ + decimal(self.tcp_port as nat) + (
        match self.db_name {
            Some(name) => "/"@ + name,
            None => Seq::empty(),
        })
    }
}

impl View for Opts {
    type V = OptsView;

    open spec fn view(&self) -> OptsView {
        OptsView {
            ip_or_hostname: self.ip_or_hostname@,
            tcp_port: self.tcp_port,
            db_name: self.db_name.deep_view(),
            user: self.user.deep_view(),
            pass: self.pass.deep_view(),
        }
    }
}

/// The options that lead to the database `database` on the server
/// `hostname` at `port`, with the given credentials.
pub open spec fn connect_opts(
    hostname: Seq<char>,
    port: u16,
    database: Seq<char>,
    creds: Credentials,
) -> OptsView {
    match creds {
        Credentials::UsernamePassword(up) => OptsView {
            ip_or_hostname: hostname,
            tcp_port: port,
            db_name: Some(database),
            user: Some(up.username@),
            pass: Some(up.password@),
        },
    }
}

/// Defines errors originating in the MySQL [`Database`]. Paths and the
/// causes that the backend gave are held as text.
#[derive(Clone, Debug, PartialEq, Eq)]
pub enum Error {
    /// Failed to open a given file.
    FileOpen { path: String, err: String },
    /// Failed to read the given file as a [`ConfigFile`].
    FileRead { kind: &'static str, path: String, err: String },
    /// Failed to create a new connection pool.
    PoolCreate { opts: Opts, err: String },
    /// Unknown extension for given config file path.
    UnknownExt { path: String },
}

impl Error {
    /// The text of the message that describes this error.
    pub open spec fn message_text(self) -> Seq<char> {
        match self {
            Error::FileOpen { path, .. } => "Failed to open file '"@ + path@ + "'"@,
            Error::FileRead { kind, path, .. } => "Failed to read file '"@ + path@ + "' as a "@
                + kind@ + " credentials file"@,
            Error::PoolCreate { opts, .. } => "Failed to create new MySQL connection pool to '"@
                + opts@.url() + "'"@,
            Error::UnknownExt { path } => "Unknown extension for credentials file '"@ + path@
                + "' (expected 'json', 'yml' or 'yaml')"@,
        }
    }

    /// The text of the cause of this error, where it has one.
    pub open spec fn source_text(self) -> Option<Seq<char>> {
        match self {
            Error::FileOpen { err, .. } => Some(err@),
            Error::FileRead { err, .. } => Some(err@),
            Error::PoolCreate { err, .. } => Some(err@),
            Error::UnknownExt { .. } => None,
        }
    }

    /// The error of this module that reports what `err` reports: each kind
    /// of failure to load a configuration file has its counterpart here.
    pub open spec fn of_load_error(err: crate::common::Error) -> Error {
        match err {
            crate::common::Error::FileOpen { path, err } => Error::FileOpen { path, err },
            crate::common::Error::FileRead { kind, path, err } => Error::FileRead {
                kind,
                path,
                err,
            },
            crate::common::Error::UnknownExt { path } => Error::UnknownExt { path },
        }
    }

    /// Returns the error of this module that reports what `err` reports.
    pub fn from_load_error(err: crate::common::Error) -> (r: Error)
        ensures
            r == Self::of_load_error(err),
    {
        match err {
            crate::common::Error::FileOpen { path, err } => Error::FileOpen { path, err },
            crate::common::Error::FileRead { kind, path, err } => Error::FileRead {
                kind,
                path,
                err,
            },
            crate::common::Error::UnknownExt { path } => Error::UnknownExt { path },
        }
    }

    /// Returns a message that describes this error.
    pub fn message(&self) -> (r: String)
        ensures
            r@ == self.message_text(),
    {
        let mut out = String::new();
        match self {
            Error::FileOpen { path, .. } => {
                out.append("Failed to open file '");
                out.append(path.as_str());
                out.append("'");
            },
            Error::FileRead { kind, path, .. } => {
                out.append("Failed to read file '");
                out.append(path.as_str());
                out.append("' as a ");
                out.append(kind);
                out.append(" credentials file");
            },
            Error::PoolCreate { opts, .. } => {
                out.append("Failed to create new MySQL connection pool to 'mysql://");
                out.append(opts.ip_or_hostname.as_str());
                out.append(":");
                push_decimal(&mut out, opts.tcp_port as u64);
                if let Some(db_name) = &opts.db_name {
                    out.append("/");
                    out.append(db_name.as_str());
                }
                out.append("'");
                proof {
                    reveal_strlit("Failed to create new MySQL connection pool to 'mysql://");
                    reveal_strlit("Failed to create new MySQL connection pool to '");
                    reveal_strlit("mysql://");
                }
            },
            Error::UnknownExt { path } => {
                out.append("Unknown extension for credentials file '");
                out.append(path.as_str());
                out.append("' (expected 'json', 'yml' or 'yaml')");
            },
        }
        assert(out@ =~= self.message_text());
        out
    }

    /// Returns the cause of this error, where it has one.
    pub fn source(&self) -> (r: Option<&str>)
        ensures
            r.deep_view() == self.source_text(),
    {
        match self {
            Error::FileOpen { err, .. } => Some(err.as_str()),
            Error::FileRead { err, .. } => Some(err.as_str()),
            Error::PoolCreate { err, .. } => Some(err.as_str()),
            Error::UnknownExt { .. } => None,
        }
    }
}

/// What a [`Database`] holds, as mathematical data.
pub struct DatabaseView {
    /// The options that the connection pool is created with.
    pub opts: OptsView,
    /// Whether the connection pool was created.
    pub connected: bool,
}

/// The state of a connector to a MySQL server.
#[derive(Clone, Debug, PartialEq, Eq)]
pub struct Database {
    /// The options that the connection pool is created with.
    opts: Opts,
    /// Whether the connection pool was created.
    connected: bool,
}

impl View for Database {
    type V = DatabaseView;

    closed spec fn view(&self) -> DatabaseView {
        DatabaseView { opts: self.opts@, connected: self.connected }
    }
}

impl Database {
    /// Starts a connector that points to a particular database. Nothing is
    /// connected yet.
    ///
    /// # Arguments
    /// - `hostname`: The hostname of the MySQL endpoint to connect to.
    /// - `port`: The port of the MySQL endpoint to connect to.
    /// - `database`: The specific database to connect with.
    /// - `creds`: A [`Credentials`] that describes how to authenticate ourselves to the server.
    ///
    /// # Returns
    /// A new instance of Self that holds the options to connect with.
    pub fn new(hostname: &str, port: u16, database: &str, creds: &Credentials) -> (r: Self)
        ensures
            r@ == (DatabaseView {
                opts: connect_opts(hostname@, port, database@, *creds),
                connected: false,
            }),
    {
        let (user, pass) = match creds {
            Credentials::UsernamePassword(up) => (up.username.clone(), up.password.clone()),
        };
        Database {
            opts: Opts {
                ip_or_hostname: String::from_str(hostname),
                tcp_port: port,
                db_name: Some(String::from_str(database)),
                user: Some(user),
                pass: Some(pass),
            },
            connected: false,
        }
    }

    /// Starts a connector that points to the database that a configuration
    /// file describes.
    ///
    /// # Arguments
    /// - `loaded`: What loading the configuration file gave.
    ///
    /// # Returns
    /// A new instance of Self that holds the options to connect with.
    ///
    /// # Errors
    /// Fails with the counterpart of the cause where the configuration file
    /// could not be loaded.
    pub fn from_path(loaded: Result<ConfigFile, crate::common::Error>) -> (r: Result<Self, Error>)
        ensures
            loaded matches Ok(config) ==> r is Ok && r->Ok_0@ == (DatabaseView {
                opts: connect_opts(config.host@, config.port, config.database@, config.creds),
                connected: false,
            }),
            loaded matches Err(cause) ==> r == Err::<Self, Error>(Error::of_load_error(cause)),
    {
        match loaded {
            Ok(config) => Ok(
                Self::new(
                    config.host.as_str(),
                    config.port,
                    config.database.as_str(),
                    &config.creds,
                ),
            ),
            Err(err) => Err(Error::from_load_error(err)),
        }
    }

    /// Returns the options that the connection pool is created with.
    pub fn opts(&self) -> (r: &Opts)
        ensures
            r@ == self@.opts,
    {
        &self.opts
    }

    /// Returns whether the connection pool was created.
    pub fn is_connected(&self) -> (r: bool)
        ensures
            r == self@.connected,
    {
        self.connected
    }

    /// Takes note of how creating the connection pool went.
    ///
    /// # Arguments
    /// - `outcome`: `Err` with the cause where no pool could be created.
    ///
    /// # Returns
    /// The connector, connected.
    ///
    /// # Errors
    /// Fails with [`Error::PoolCreate`], which holds the options and the
    /// cause, where no pool could be created.
    pub fn connected(self, outcome: Result<(), String>) -> (r: Result<Self, Error>)
        ensures
            outcome is Ok ==> r is Ok && r->Ok_0@ == (DatabaseView {
                opts: self@.opts,
                connected: true,
            }),
            outcome matches Err(cause) ==> r matches Err(Error::PoolCreate { opts, err }) && opts@
                == self@.opts && err == cause,
    {
        match outcome {
            Ok(()) => Ok(Database { opts: self.opts, connected: true }),
            Err(err) => Err(Error::PoolCreate { opts: self.opts, err }),
        }
    }
}

} // verus!
