//! Errors that end the program, and the kind of exit each one asks for.
use vstd::prelude::*;

use crate::text::concat_str;

verus! {

/// The kinds of unsuccessful exit this program distinguishes, after the
/// conventional `sysexits` codes of the same names.
#[derive(Clone, Copy, Debug, PartialEq, Eq, Structural)]
pub enum ExitKind {
    Usage,
    DataErr,
    Unavailable,
    Software,
    OsErr,
}

/// The synopsis of every subcommand.
pub const USAGE: &'static str = "[-v] add | get | init | list | remove | update\n\nadd [-m version] [-f hopfiles...] packages...\nget [-n] [-d directory] [-m versions...] [-t types...] packages\ninit [-f hopfiles...] version type\nlist [[-f hopfiles...] | [-m versions...] [-t types...]]\nremove [[-f hopfiles...] | type version]] packages...\nupdate [[-f hopfiles... | [-m versions...] [-t types...]]";

/// An error that ends the program: a message and the kind of exit.
#[derive(Debug)]
pub struct HopError {
    pub code: ExitKind,
    pub message: String,
}

impl HopError {
    /// The command line could not be read: the synopsis, as a usage error.
    pub fn usage() -> (r: HopError)
        ensures
            r.message@ == "Usage: "@ + USAGE@,
            r.code == ExitKind::Usage,
    {
        HopError { message: concat_str("Usage: ", USAGE), code: ExitKind::Usage }
    }

    /// The command line could not be taken apart into arguments.
    pub fn unreadable_arguments() -> (r: HopError)
        ensures
            r.message@ == "Unable to ascertain arguments."@,
            r.code == ExitKind::OsErr,
    {
        HopError { message: String::from_str("Unable to ascertain arguments."), code: ExitKind::OsErr }
    }

    /// The configuration directory could not be found, for `reason`.
    pub fn config_unavailable(reason: &str) -> (r: HopError)
        ensures
            r.message@ == reason@ + ": Unable to open configuration file"@,
            r.code == ExitKind::Unavailable,
    {
        HopError {
            message: concat_str(reason, ": Unable to open configuration file"),
            code: ExitKind::Unavailable,
        }
    }

    /// A subcommand that this program does not carry out.
    pub fn unimplemented(command: &str) -> (r: HopError)
        ensures
            r.message@ == command@ + ": Unimplemented subcommand."@,
            r.code == ExitKind::Software,
    {
        HopError { message: concat_str(command, ": Unimplemented subcommand."), code: ExitKind::Software }
    }

    /// The message to leave with and the kind of exit.
    pub fn into_exit(self) -> (r: (String, ExitKind))
        ensures
            r.0 == self.message,
            r.1 == self.code,
    {
        (self.message, self.code)
    }
}

/// The command line could not be read.
#[derive(Debug)]
pub struct ArgsError {
    message: String,
    code: ExitKind,
}

impl ArgsError {
    /// The message that an unreadable command line leaves with.
    pub closed spec fn spec_message(&self) -> Seq<char> {
        self.message@
    }

    /// The kind of exit that an unreadable command line asks for.
    pub closed spec fn spec_code(&self) -> ExitKind {
        self.code
    }

    /// The synopsis, as a usage error.
    pub fn usage() -> (r: ArgsError)
        ensures
            r.spec_message() == USAGE@,
            r.spec_code() == ExitKind::Usage,
    {
        ArgsError { message: String::from_str(USAGE), code: ExitKind::Usage }
    }

    /// The message to leave with and the kind of exit.
    pub fn into_exit(self) -> (r: (String, ExitKind))
        ensures
            r.0@ == self.spec_message(),
            r.1 == self.spec_code(),
    {
        (self.message, self.code)
    }
}

} // verus!
