//! The user's configuration, and why reading it may fail.
use vstd::prelude::*;

use crate::error::ExitKind;

verus! {

/// The user's configuration.
#[derive(Clone, Debug)]
pub struct Config {
    pub hopfiles: Vec<String>,
    pub sources: Sources,
    pub options: Options,
}

/// The hosts of the repositories to search.
#[derive(Clone, Debug)]
pub struct Sources {
    pub modrinth: Vec<String>,
}

/// How results are shown and where files go.
#[derive(Clone, Debug)]
pub struct Options {
    /// List search hits last to first.
    pub reverse_search: bool,
    /// Where fetched files are written when the command line names no place.
    pub download_dir: Option<String>,
}

/// Why the configuration could not be read; each holds the underlying
/// error's text.
#[derive(Clone, Debug)]
pub enum ConfigError {
    CreateError(String),
    OpenError(String),
    ReadError(String),
    FormatError(String),
    ParseError(String),
}

/// The message and kind of exit for each way of failing to read the
/// configuration.
pub open spec fn config_exit(e: ConfigError) -> (Seq<char>, ExitKind) {
    match e {
        ConfigError::CreateError(_) => ("Unable to create configuration file."@, ExitKind::Unavailable),
        ConfigError::OpenError(_) => ("Unable to open configuration file."@, ExitKind::Unavailable),
        ConfigError::ReadError(_) => ("Error while reading configuration file."@, ExitKind::DataErr),
        ConfigError::FormatError(_) => ("Configuration file is not valid UTF-8."@, ExitKind::DataErr),
        ConfigError::ParseError(_) => ("Unable to parse configuration file."@, ExitKind::DataErr),
    }
}

impl ConfigError {
    /// The message to leave with and the kind of exit.
    pub fn into_exit(self) -> (r: (String, ExitKind))
        ensures
            (r.0@, r.1) == config_exit(self),
    {
        let (message, code) = match self {
            ConfigError::CreateError(_) => ("Unable to create configuration file.", ExitKind::Unavailable),
            ConfigError::OpenError(_) => ("Unable to open configuration file.", ExitKind::Unavailable),
            ConfigError::ReadError(_) => ("Error while reading configuration file.", ExitKind::DataErr),
            ConfigError::FormatError(_) => ("Configuration file is not valid UTF-8.", ExitKind::DataErr),
            ConfigError::ParseError(_) => ("Unable to parse configuration file.", ExitKind::DataErr),
        };
        (String::from_str(message), code)
    }
}

} // verus!
