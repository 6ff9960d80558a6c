//! The command line: subcommands, their arguments, and package types.
use vstd::prelude::*;

use crate::error::ExitKind;
use crate::text::{concat_str, find_only, is_only, same_text};

verus! {

/// The command line as a whole.
#[derive(Debug)]
pub struct Arguments {
    pub argv0: String,
    pub v: Option<bool>,
    pub sub: Command,
}

/// A subcommand with its arguments.
#[derive(Debug)]
pub enum Command {
    Add(AddArgs),
    Get(SearchArgs),
    Init(InitArgs),
    List(HopArgs),
    Remove(RmArgs),
    Update(HopArgs),
}

/// The name under which a subcommand is invoked.
pub open spec fn command_name(c: &Command) -> Seq<char> {
    match c {
        Command::Add(_) => "add"@,
        Command::Get(_) => "get"@,
        Command::Init(_) => "init"@,
        Command::List(_) => "list"@,
        Command::Remove(_) => "remove"@,
        Command::Update(_) => "update"@,
    }
}

impl Command {
    /// The name under which this subcommand is invoked.
    pub fn name(&self) -> (r: &'static str)
        ensures
            r@ == command_name(self),
    {
        match self {
            Command::Add(_) => "add",
            Command::Get(_) => "get",
            Command::Init(_) => "init",
            Command::List(_) => "list",
            Command::Remove(_) => "remove",
            Command::Update(_) => "update",
        }
    }
}

/// Arguments of `add`.
#[derive(Debug)]
pub struct AddArgs {
    pub mc_version: String,
    pub hopfiles: Vec<String>,
    pub package_names: Vec<String>,
}

/// Arguments of `list` and `update`.
#[derive(Debug)]
pub struct HopArgs {
    pub hopfile: Vec<String>,
    pub mc_version: Vec<String>,
    pub package_type: Option<PackageType>,
}

/// Arguments of `init`.
#[derive(Debug)]
pub struct InitArgs {
    pub template: Option<String>,
    pub mc_version: String,
    pub package_type: PackageType,
}

/// Arguments of `remove`.
#[derive(Debug)]
pub struct RmArgs {
    pub hopfile: Option<String>,
    pub package_type: PackageType,
    pub mc_version: String,
    pub package_names: Vec<String>,
}

/// Arguments of `get`: the search text and its filters.
#[derive(Debug)]
pub struct SearchArgs {
    /// Fetch every chosen file without asking first.
    pub no_confirm: bool,
    /// Overrides the download directory.
    pub dir: Option<String>,
    /// Restricts the target game versions.
    pub mc_version: Vec<String>,
    /// Type of package to look for.
    pub package_type: PackageType,
    pub package_name: String,
}

/// A kind of package; `Dummy` stands for "no kind given".
#[derive(Clone, Copy, Debug, PartialEq, Eq, Structural)]
pub enum PackageType {
    Dummy,
    Mod(Loader),
    Pack(Loader),
    Plugin(Server),
    ResourcePack,
}

/// A mod loader.
#[derive(Clone, Copy, Debug, PartialEq, Eq, Structural)]
pub enum Loader {
    Fabric,
    Forge,
    Quilt,
}

/// A plugin server.
#[derive(Clone, Copy, Debug, PartialEq, Eq, Structural)]
pub enum Server {
    Bukkit,
    Paper,
    Purpur,
    Spigot,
    Sponge,
}

impl Default for PackageType {
    fn default() -> (r: PackageType)
        ensures
            r == PackageType::Dummy,
    {
        PackageType::Dummy
    }
}

/// Why a package type could not be read.
#[derive(Clone, Debug)]
pub enum PackageParseError {
    Invalid(String),
}

impl PackageParseError {
    /// The message to leave with and the kind of exit.
    pub fn into_exit(self) -> (r: (String, ExitKind))
        ensures
            self matches PackageParseError::Invalid(m) && r.0@ == m@,
            r.1 == ExitKind::DataErr,
    {
        match self {
            PackageParseError::Invalid(m) => (m, ExitKind::DataErr),
        }
    }
}

/// The server named by the first half of a package type.
pub open spec fn server_named(s: Seq<char>) -> Option<Server> {
    if s == "bukkit"@ {
        Some(Server::Bukkit)
    } else if s == "paper"@ {
        Some(Server::Paper)
    } else if s == "purpur"@ {
        Some(Server::Purpur)
    } else if s == "spigot"@ {
        Some(Server::Spigot)
    } else if s == "sponge"@ {
        Some(Server::Sponge)
    } else {
        None
    }
}

/// The loader named by the first half of a package type.
pub open spec fn loader_named(s: Seq<char>) -> Option<Loader> {
    if s == "fabric"@ {
        Some(Loader::Fabric)
    } else if s == "forge"@ {
        Some(Loader::Forge)
    } else if s == "quilt"@ {
        Some(Loader::Quilt)
    } else {
        None
    }
}

/// The message that rejects `s` as (part of) a package type.
pub open spec fn invalid_type_message(s: Seq<char>) -> Seq<char> {
    s + ": Invalid package type."@
}

/// What a package type written `prefix-postfix` denotes: a server or
/// `resource` as prefix decides alone; a loader needs `mod` or `pack` after
/// it. The error holds the message naming the part that was not understood.
pub open spec fn package_type_of(s: Seq<char>) -> Result<PackageType, Seq<char>> {
    if exists|k: int| is_only(s, '-', k) {
        let k = choose|k: int| is_only(s, '-', k);
        let prefix = s.take(k);
        let postfix = s.skip(k + 1);
        if let Some(server) = server_named(prefix) {
            Ok(PackageType::Plugin(server))
        } else if prefix == "resource"@ {
            Ok(PackageType::ResourcePack)
        } else if let Some(loader) = loader_named(prefix) {
            if postfix == "mod"@ {
                Ok(PackageType::Mod(loader))
            } else if postfix == "pack"@ {
                Ok(PackageType::Pack(loader))
            } else {
                Err(invalid_type_message(postfix))
            }
        } else {
            Err(invalid_type_message(prefix))
        }
    } else {
        Err(invalid_type_message(s))
    }
}

fn server_of(s: &str) -> (r: Option<Server>)
    ensures
        r == server_named(s@),
{
    if same_text(s, "bukkit") {
        Some(Server::Bukkit)
    } else if same_text(s, "paper") {
        Some(Server::Paper)
    } else if same_text(s, "purpur") {
        Some(Server::Purpur)
    } else if same_text(s, "spigot") {
        Some(Server::Spigot)
    } else if same_text(s, "sponge") {
        Some(Server::Sponge)
    } else {
        None
    }
}

fn loader_of(s: &str) -> (r: Option<Loader>)
    ensures
        r == loader_named(s@),
{
    if same_text(s, "fabric") {
        Some(Loader::Fabric)
    } else if same_text(s, "forge") {
        Some(Loader::Forge)
    } else if same_text(s, "quilt") {
        Some(Loader::Quilt)
    } else {
        None
    }
}

fn invalid_type(s: &str) -> (r: PackageParseError)
    ensures
        r matches PackageParseError::Invalid(m) && m@ == invalid_type_message(s@),
{
    PackageParseError::Invalid(concat_str(s, ": Invalid package type."))
}

impl PackageType {
    /// Reads a package type written `prefix-postfix`, such as `fabric-mod`,
    /// `quilt-pack`, `paper-plugin` or `resource-pack`.
    pub fn from_text(s: &str) -> (r: Result<PackageType, PackageParseError>)
        ensures
            r matches Ok(t) ==> package_type_of(s@) == Ok::<PackageType, Seq<char>>(t),
            r matches Err(PackageParseError::Invalid(m)) ==> package_type_of(s@) == Err::<
                PackageType,
                Seq<char>,
            >(m@),
    {
        match find_only(s, '-') {
            None => Err(invalid_type(s)),
            Some(k) => {
                proof {
                    let c = choose|j: int| is_only(s@, '-', j);
                    assert(is_only(s@, '-', c));
                    assert(c == k) by {
                        if c < k {
                            assert(s@[c] != '-');
                        }
                        if k < c {
                            assert(s@[c] != '-');
                        }
                    }
                }
                let n = s.unicode_len();
                let prefix = s.substring_char(0, k);
                let postfix = s.substring_char(k + 1, n);
                if let Some(server) = server_of(prefix) {
                    Ok(PackageType::Plugin(server))
                } else if same_text(prefix, "resource") {
                    Ok(PackageType::ResourcePack)
                } else if let Some(loader) = loader_of(prefix) {
                    if same_text(postfix, "mod") {
                        Ok(PackageType::Mod(loader))
                    } else if same_text(postfix, "pack") {
                        Ok(PackageType::Pack(loader))
                    } else {
                        Err(invalid_type(postfix))
                    }
                } else {
                    Err(invalid_type(prefix))
                }
            },
        }
    }
}

impl std::str::FromStr for PackageType {
    type Err = PackageParseError;

    fn from_str(s: &str) -> (r: Result<PackageType, PackageParseError>)
        ensures
            r matches Ok(t) ==> package_type_of(s@) == Ok::<PackageType, Seq<char>>(t),
            r matches Err(PackageParseError::Invalid(m)) ==> package_type_of(s@) == Err::<
                PackageType,
                Seq<char>,
            >(m@),
    {
        PackageType::from_text(s)
    }
}

} // verus!
