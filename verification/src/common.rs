//! What the database connectors share: the decisions taken while a
//! configuration file is loaded, and the errors that loading reports.
//!
//! Nothing here touches a file. The caller opens and reads; this module
//! decides from the path's extension what the file is read as, and which
//! error a failure becomes.

use vstd::prelude::*;

use crate::text::str_eq;

verus! {

/// Defines errors that originate from loading a configuration file. Paths
/// and causes are held as text.
#[derive(Clone, Debug, PartialEq, Eq)]
pub enum Error {
    /// Failed to open a given file.
    FileOpen { path: String, err: String },
    /// Failed to read the given file as a configuration file of some kind.
    FileRead { kind: &'static str, path: String, err: String },
    /// Unknown extension for given config file path.
    UnknownExt { path: String },
}

impl Error {
    /// The text of the message that describes this error.
    pub open spec fn message_text(self) -> Seq<char> {
        match self {
            Error::FileOpen { path, .. } => "Failed to open file '"@ + path@ + "'"@,
            Error::FileRead { kind, path, .. } => "Failed to read file '"@ + path@ + "' as a "@
                + kind@ + " credentials file"@,
            Error::UnknownExt { path } => "Unknown extension for credentials file '"@ + path@
                + "' (expected 'json', 'yml' or 'yaml')"@,
        }
    }

    /// The text of the cause of this error, where it has one.
    pub open spec fn source_text(self) -> Option<Seq<char>> {
        match self {
            Error::FileOpen { err, .. } => Some(err@),
            Error::FileRead { err, .. } => Some(err@),
            Error::UnknownExt { .. } => None,
        }
    }

    /// Returns a message that describes this error.
    pub fn message(&self) -> (r: String)
        ensures
            r@ == self.message_text(),
    {
        let mut out = String::new();
        match self {
            Error::FileOpen { path, .. } => {
                out.append("Failed to open file '");
                out.append(path.as_str());
                out.append("'");
            },
            Error::FileRead { kind, path, .. } => {
                out.append("Failed to read file '");
                out.append(path.as_str());
                out.append("' as a ");
                out.append(kind);
                out.append(" credentials file");
            },
            Error::UnknownExt { path } => {
                out.append("Unknown extension for credentials file '");
                out.append(path.as_str());
                out.append("' (expected 'json', 'yml' or 'yaml')");
            },
        }
        assert(out@ =~= self.message_text());
        out
    }

    /// Returns the cause of this error, where it has one.
    pub fn source(&self) -> (r: Option<&str>)
        ensures
            r.deep_view() == self.source_text(),
    {
        match self {
            Error::FileOpen { err, .. } => Some(err.as_str()),
            Error::FileRead { err, .. } => Some(err.as_str()),
            Error::UnknownExt { .. } => None,
        }
    }
}

/// The formats that a configuration file can be read as.
#[derive(Clone, Copy, Debug, PartialEq, Eq, Hash, Structural)]
pub enum ConfigFormat {
    /// The file is read as JSON.
    Json,
    /// The file is read as YAML.
    Yaml,
    /// The file is read as UTF-8 text, which is then parsed as TOML.
    Toml,
}

/// How reading an opened configuration file failed.
#[derive(Clone, Debug, PartialEq, Eq)]
pub enum ReadFailure {
    /// The contents of the file are no text. Only a file that is parsed from
    /// text fails so.
    Text(String),
    /// The contents of the file could not be parsed in its format.
    Parse(String),
}

impl ConfigFormat {
    /// The format that a file with the extension `extension` is read as:
    /// JSON for `json`, YAML for `yml` and `yaml`, TOML for `toml`, in
    /// exactly this spelling. `None` for every other extension and for a
    /// path without one.
    pub open spec fn of_extension(extension: Option<Seq<char>>) -> Option<ConfigFormat> {
        match extension {
            Some(ext) => if ext == "json"@ {
                Some(ConfigFormat::Json)
            } else if ext == "yml"@ || ext == "yaml"@ {
                Some(ConfigFormat::Yaml)
            } else if ext == "toml"@ {
                Some(ConfigFormat::Toml)
            } else {
                None
            },
            None => None,
        }
    }

    /// The name of this format, as error messages give it.
    pub open spec fn kind_text(self) -> Seq<char> {
        match self {
            ConfigFormat::Json => "JSON"@,
            ConfigFormat::Yaml => "YAML"@,
            ConfigFormat::Toml => "TOML"@,
        }
    }

    /// The kind that an error gives for `failure` in a file of this format:
    /// `UTF-8` where the contents are no text, else the name of the format.
    pub open spec fn failure_kind(self, failure: ReadFailure) -> Seq<char> {
        match failure {
            ReadFailure::Text(_) => "UTF-8"@,
            ReadFailure::Parse(_) => self.kind_text(),
        }
    }

    /// Returns the format that a file with the given extension is read as.
    pub fn from_extension(extension: Option<&str>) -> (r: Option<ConfigFormat>)
        ensures
            r == Self::of_extension(extension.deep_view()),
    {
        match extension {
            Some(ext) => if str_eq(ext, "json") {
                Some(ConfigFormat::Json)
            } else if str_eq(ext, "yml") || str_eq(ext, "yaml") {
                Some(ConfigFormat::Yaml)
            } else if str_eq(ext, "toml") {
                Some(ConfigFormat::Toml)
            } else {
                None
            },
            None => None,
        }
    }

    /// Returns the name of this format, as error messages give it.
    pub fn kind(&self) -> (r: &'static str)
        ensures
            r@ == self.kind_text(),
    {
        match self {
            ConfigFormat::Json => "JSON",
            ConfigFormat::Yaml => "YAML",
            ConfigFormat::Toml => "TOML",
        }
    }

    /// Turns a failure to read the file at `path` in this format into the
    /// error that reports it.
    pub fn read_error(&self, path: &str, failure: ReadFailure) -> (r: Error)
        ensures
            r matches Error::FileRead { kind, path: p, err } && kind@ == self.failure_kind(failure)
                && p@ == path@ && (failure matches ReadFailure::Text(cause) ==> err == cause) && (
            failure matches ReadFailure::Parse(cause) ==> err == cause),
    {
        match failure {
            ReadFailure::Text(err) => Error::FileRead {
                kind: "UTF-8",
                path: String::from_str(path),
                err,
            },
            ReadFailure::Parse(err) => Error::FileRead {
                kind: self.kind(),
                path: String::from_str(path),
                err,
            },
        }
    }
}

/// Decides what the configuration file at `path` is read as, once the
/// caller has tried to open it.
///
/// # Arguments
/// - `path`: The path of the file.
/// - `extension`: The extension of `path`, if it has one.
/// - `opened`: How opening the file went: `Err` with the cause where it failed.
///
/// # Errors
/// Fails with [`Error::FileOpen`] where the file could not be opened,
/// whatever its extension is, and with [`Error::UnknownExt`] where it could
/// but its extension names no format.
pub fn choose_format(path: &str, extension: Option<&str>, opened: Result<(), String>) -> (r: Result<
    ConfigFormat,
    Error,
>)
    ensures
        opened matches Err(cause) ==> r matches Err(Error::FileOpen { path: p, err }) && p@ == path@
            && err == cause,
        opened is Ok ==> match ConfigFormat::of_extension(extension.deep_view()) {
            Some(format) => r == Ok::<ConfigFormat, Error>(format),
            None => r matches Err(Error::UnknownExt { path: p }) && p@ == path@,
        },
{
    match opened {
        Err(err) => Err(Error::FileOpen { path: String::from_str(path), err }),
        Ok(()) => match ConfigFormat::from_extension(extension) {
            Some(format) => Ok(format),
            None => Err(Error::UnknownExt { path: String::from_str(path) }),
        },
    }
}

} // verus!
