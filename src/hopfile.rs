//! The project file that lists the packages of a modded installation.
use vstd::prelude::*;

use crate::text::{concat_str, find_char, is_first, same_text};

verus! {

/// The mod repository a listed resource comes from.
#[derive(Clone, Copy, Debug, PartialEq, Eq, Structural)]
pub enum Provider {
    Modrinth,
}

impl Default for Provider {
    fn default() -> (r: Provider)
        ensures
            r == Provider::Modrinth,
    {
        Provider::Modrinth
    }
}

/// The name under which a provider is written in a project file.
pub open spec fn provider_name(p: Provider) -> Seq<char> {
    match p {
        Provider::Modrinth => "modrinth"@,
    }
}

/// The provider written as `s`, if any.
pub open spec fn provider_named(s: Seq<char>) -> Option<Provider> {
    if s == "modrinth"@ {
        Some(Provider::Modrinth)
    } else {
        None
    }
}

impl Provider {
    /// Reads a provider name; only the known names are accepted.
    pub fn from_text(s: &str) -> (r: Result<Provider, ()>)
        ensures
            r matches Ok(p) ==> provider_named(s@) == Some(p),
            r is Err ==> provider_named(s@) is None,
    {
        if same_text(s, "modrinth") {
            Ok(Provider::Modrinth)
        } else {
            Err(())
        }
    }

    /// The name of the provider as written in a project file.
    pub fn to_text(&self) -> (r: &'static str)
        ensures
            r@ == provider_name(*self),
    {
        match self {
            Provider::Modrinth => "modrinth",
        }
    }
}

/// One package listed in a project file: a provider and a name.
#[derive(Clone, Debug)]
pub struct Resource {
    pub provider: Provider,
    pub name: String,
}

/// What `provider:name`, or a bare `name`, denotes: the first `:` splits the
/// provider from the name; without one the whole text is a name from the
/// default provider, and the empty text denotes nothing.
pub open spec fn resource_of(s: Seq<char>) -> Option<(Provider, Seq<char>)> {
    if exists|k: int| is_first(s, ':', k) {
        let k = choose|k: int| is_first(s, ':', k);
        match provider_named(s.take(k)) {
            Some(p) => Some((p, s.skip(k + 1))),
            None => None,
        }
    } else if s.len() > 0 {
        Some((Provider::Modrinth, s))
    } else {
        None
    }
}

impl Resource {
    /// Reads a resource written as `provider:name` or as a bare name.
    pub fn from_text(s: &str) -> (r: Result<Resource, ()>)
        ensures
            r matches Ok(res) ==> resource_of(s@) == Some((res.provider, res.name@)),
            r is Err ==> resource_of(s@) is None,
    {
        match find_char(s, ':') {
            Some(k) => {
                let n = s.unicode_len();
                proof {
                    assert(is_first(s@, ':', k as int));
                    let c = choose|j: int| is_first(s@, ':', j);
                    assert(c == k) by {
                        if c < k {
                            assert(s@[c] != ':');
                        }
                        if k < c {
                            assert(s@[k as int] != ':');
                        }
                    }
                }
                let provider = Provider::from_text(s.substring_char(0, k));
                match provider {
                    Ok(p) => {
                        let name = String::from_str(s.substring_char(k + 1, n));
                        Ok(Resource { provider: p, name })
                    },
                    Err(()) => Err(()),
                }
            },
            None => {
                if s.unicode_len() > 0 {
                    Ok(Resource { provider: Provider::default(), name: String::from_str(s) })
                } else {
                    Err(())
                }
            },
        }
    }

    /// The resource written as `provider:name`.
    pub fn to_text(&self) -> (r: String)
        ensures
            r@ == provider_name(self.provider) + ":"@ + self.name@,
    {
        let head = concat_str(self.provider.to_text(), ":");
        concat_str(head.as_str(), self.name.as_str())
    }
}

/// Reading back what a resource is written as gives the same resource, also
/// where its name holds a `:`.
pub proof fn lemma_resource_round_trip(p: Provider, name: Seq<char>)
    ensures
        resource_of(provider_name(p) + ":"@ + name) == Some((p, name)),
{
    reveal_strlit("modrinth");
    reveal_strlit(":");
    let s = provider_name(p) + ":"@ + name;
    assert(is_first(s, ':', 8));
    let k = choose|k: int| is_first(s, ':', k);
    assert(k == 8) by {
        if k < 8 {
            assert(s[k] == "modrinth"@[k]);
        }
        if k > 8 {
            assert(s[8] == ':');
        }
    }
    assert(s.take(8) =~= "modrinth"@);
    assert(s.skip(9) =~= name);
}

impl std::str::FromStr for Resource {
    type Err = ();

    fn from_str(s: &str) -> (r: Result<Resource, ()>)
        ensures
            r matches Ok(res) ==> resource_of(s@) == Some((res.provider, res.name@)),
            r is Err ==> resource_of(s@) is None,
    {
        Resource::from_text(s)
    }
}

/// The packages of a project, by kind.
#[derive(Clone, Debug)]
pub struct Packages {
    pub mods: Vec<Resource>,
    pub resources: Vec<Resource>,
}

impl Default for Packages {
    fn default() -> (r: Packages)
        ensures
            r.mods@.len() == 0,
            r.resources@.len() == 0,
    {
        Packages { mods: Vec::new(), resources: Vec::new() }
    }
}

/// A project file: an optional template, the game version and the packages.
#[derive(Clone, Debug)]
pub struct Hopfile {
    pub template: Option<String>,
    pub mc_version: String,
    pub packages: Packages,
}

/// The game version a new project file names when none is given.
pub open spec fn default_mc_version() -> Seq<char> {
    "1.19.1"@
}

impl Hopfile {
    /// A project file with no packages, for the given game version or the
    /// default one.
    pub fn new(template: Option<String>, version: Option<String>) -> (r: Hopfile)
        ensures
            r.template == template,
            r.mc_version@ == match version {
                Some(v) => v@,
                None => default_mc_version(),
            },
            r.packages.mods@.len() == 0,
            r.packages.resources@.len() == 0,
    {
        let mc_version = match version {
            Some(v) => v,
            None => String::from_str("1.19.1"),
        };
        Hopfile { template, mc_version, packages: Packages::default() }
    }
}

} // verus!
