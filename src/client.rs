//! The requests sent to the repository's web API: endpoint addresses and the
//! parameters of a search.
use vstd::prelude::*;

use crate::api::Error;
use crate::args::{Loader, PackageType, SearchArgs, Server};
use crate::config::Sources;
use crate::text::{concat_str, decimal, decimal_text, join, joined, views};

verus! {

/// The search endpoint of the API at `host`.
pub open spec fn search_endpoint(host: Seq<char>) -> Seq<char> {
    host + "/v2/search"@
}

/// The address of the project `id` at `host`.
pub open spec fn project_endpoint(host: Seq<char>, id: Seq<char>) -> Seq<char> {
    host + "/v2/project/"@ + id
}

/// The address of the version `id` at `host`.
pub open spec fn version_endpoint(host: Seq<char>, id: Seq<char>) -> Seq<char> {
    host + "/v2/version/"@ + id
}

/// The search endpoint of each configured host, in order.
pub fn search_urls(sources: &Sources) -> (r: Vec<String>)
    ensures
        r@.len() == sources.modrinth@.len(),
        forall|i: int|
            0 <= i < r@.len() ==> #[trigger] r@[i]@ == search_endpoint(sources.modrinth@[i]@),
{
    let mut r: Vec<String> = Vec::new();
    let mut i: usize = 0;
    while i < sources.modrinth.len()
        invariant
            i <= sources.modrinth@.len(),
            r@.len() == i,
            forall|j: int| 0 <= j < i ==> #[trigger] r@[j]@ == search_endpoint(sources.modrinth@[j]@),
        decreases sources.modrinth@.len() - i,
    {
        r.push(concat_str(sources.modrinth[i].as_str(), "/v2/search"));
        i = i + 1;
    }
    r
}

/// The address of the project `id` at `host`.
pub fn project_url(host: &str, id: &str) -> (r: String)
    ensures
        r@ == project_endpoint(host@, id@),
{
    let s = concat_str(host, "/v2/project/");
    concat_str(s.as_str(), id)
}

/// The address of the version `id` at `host`.
pub fn version_url(host: &str, id: &str) -> (r: String)
    ensures
        r@ == version_endpoint(host@, id@),
{
    let s = concat_str(host, "/v2/version/");
    concat_str(s.as_str(), id)
}

/// The facet that restricts a search to the game version `v`.
pub open spec fn version_facet(v: Seq<char>) -> Seq<char> {
    "[\"versions:"@ + v + "\"]"@
}

/// The facets that restrict a search to a kind of package: the project type,
/// then the loader or server category where there is one. `Dummy` restricts
/// nothing.
pub open spec fn type_facet(t: PackageType) -> Option<Seq<char>> {
    match t {
        PackageType::Dummy => None,
        PackageType::Mod(Loader::Fabric) => Some("[\"project_type:mod\"],[\"categories:fabric\"]"@),
        PackageType::Mod(Loader::Forge) => Some("[\"project_type:mod\"],[\"categories:forge\"]"@),
        PackageType::Mod(Loader::Quilt) => Some("[\"project_type:mod\"],[\"categories:quilt\"]"@),
        PackageType::Pack(Loader::Fabric) => Some(
            "[\"project_type:modpack\"],[\"categories:fabric\"]"@,
        ),
        PackageType::Pack(Loader::Forge) => Some("[\"project_type:modpack\"],[\"categories:forge\"]"@),
        PackageType::Pack(Loader::Quilt) => Some("[\"project_type:modpack\"],[\"categories:quilt\"]"@),
        PackageType::Plugin(Server::Bukkit) => Some("[\"project_type:mod\"],[\"categories:bukkit\"]"@),
        PackageType::Plugin(Server::Paper) => Some("[\"project_type:mod\"],[\"categories:paper\"]"@),
        PackageType::Plugin(Server::Purpur) => Some("[\"project_type:mod\"],[\"categories:purpur\"]"@),
        PackageType::Plugin(Server::Spigot) => Some("[\"project_type:mod\"],[\"categories:spigot\"]"@),
        PackageType::Plugin(Server::Sponge) => Some("[\"project_type:mod\"],[\"categories:sponge\"]"@),
        PackageType::ResourcePack => Some("[\"project_type:resourcepack\"]"@),
    }
}

/// The facet groups of a search: the game versions, where any are named, then
/// the kind of package, where one is named.
pub open spec fn facet_groups(versions: Seq<String>, t: PackageType) -> Seq<Seq<char>> {
    let v = if versions.len() > 0 {
        seq![joined(versions.map_values(|s: String| version_facet(s@)), ","@)]
    } else {
        Seq::empty()
    };
    match type_facet(t) {
        Some(f) => v.push(f),
        None => v,
    }
}

/// The `facets` parameter of a search, absent where nothing restricts it.
pub open spec fn facets_param(versions: Seq<String>, t: PackageType) -> Option<Seq<char>> {
    let g = facet_groups(versions, t);
    if g.len() == 0 {
        None
    } else {
        Some("["@ + joined(g, ","@) + "]"@)
    }
}

/// The facets that restrict a search to a kind of package.
pub fn package_type_facet(t: PackageType) -> (r: Option<&'static str>)
    ensures
        r matches Some(f) ==> type_facet(t) == Some(f@),
        r is None ==> type_facet(t) is None,
{
    match t {
        PackageType::Dummy => None,
        PackageType::Mod(Loader::Fabric) => Some("[\"project_type:mod\"],[\"categories:fabric\"]"),
        PackageType::Mod(Loader::Forge) => Some("[\"project_type:mod\"],[\"categories:forge\"]"),
        PackageType::Mod(Loader::Quilt) => Some("[\"project_type:mod\"],[\"categories:quilt\"]"),
        PackageType::Pack(Loader::Fabric) => Some("[\"project_type:modpack\"],[\"categories:fabric\"]"),
        PackageType::Pack(Loader::Forge) => Some("[\"project_type:modpack\"],[\"categories:forge\"]"),
        PackageType::Pack(Loader::Quilt) => Some("[\"project_type:modpack\"],[\"categories:quilt\"]"),
        PackageType::Plugin(Server::Bukkit) => Some("[\"project_type:mod\"],[\"categories:bukkit\"]"),
        PackageType::Plugin(Server::Paper) => Some("[\"project_type:mod\"],[\"categories:paper\"]"),
        PackageType::Plugin(Server::Purpur) => Some("[\"project_type:mod\"],[\"categories:purpur\"]"),
        PackageType::Plugin(Server::Spigot) => Some("[\"project_type:mod\"],[\"categories:spigot\"]"),
        PackageType::Plugin(Server::Sponge) => Some("[\"project_type:mod\"],[\"categories:sponge\"]"),
        PackageType::ResourcePack => Some("[\"project_type:resourcepack\"]"),
    }
}

/// The facet for each of the game versions, in order.
fn version_facets(versions: &Vec<String>) -> (r: Vec<String>)
    ensures
        views(r@) == versions@.map_values(|s: String| version_facet(s@)),
{
    let mut r: Vec<String> = Vec::new();
    let mut i: usize = 0;
    while i < versions.len()
        invariant
            i <= versions@.len(),
            views(r@) == versions@.take(i as int).map_values(|s: String| version_facet(s@)),
        decreases versions@.len() - i,
    {
        let f = concat_str("[\"versions:", versions[i].as_str());
        let f = concat_str(f.as_str(), "\"]");
        let ghost before = r@;
        r.push(f);
        assert(views(r@) =~= versions@.take(i + 1).map_values(|s: String| version_facet(s@))) by {
            assert(r@ == before.push(f));
            let want = versions@.take(i + 1).map_values(|s: String| version_facet(s@));
            let had = versions@.take(i as int).map_values(|s: String| version_facet(s@));
            assert(views(before).len() == had.len());
            assert(before.len() == i);
            assert(f@ == version_facet(versions@[i as int]@));
            assert(versions@.take(i + 1)[i as int] == versions@[i as int]);
            assert(views(r@).len() == want.len());
            assert forall|j: int| 0 <= j < i + 1 implies views(r@)[j] == want[j] by {
                if j < i {
                    assert(versions@.take(i + 1)[j] == versions@.take(i as int)[j]);
                    assert(views(before)[j] == had[j]);
                }
            }
        }
        i = i + 1;
    }
    assert(versions@.take(versions@.len() as int) =~= versions@);
    r
}

/// The `facets` parameter of a search, absent where nothing restricts it.
pub fn search_facets(args: &SearchArgs) -> (r: Option<String>)
    ensures
        r matches Some(f) ==> facets_param(args.mc_version@, args.package_type) == Some(f@),
        r is None ==> facets_param(args.mc_version@, args.package_type) is None,
{
    let mut groups: Vec<String> = Vec::new();
    if args.mc_version.len() > 0 {
        let each = version_facets(&args.mc_version);
        groups.push(join(&each, ","));
    }
    if let Some(f) = package_type_facet(args.package_type) {
        groups.push(String::from_str(f));
    }
    proof {
        let g = facet_groups(args.mc_version@, args.package_type);
        assert(views(groups@) =~= g);
    }
    if groups.len() == 0 {
        None
    } else {
        let inner = join(&groups, ",");
        let s = concat_str("[", inner.as_str());
        Some(concat_str(s.as_str(), "]"))
    }
}

/// The query parameters of a search: the search text, then the facets where
/// anything restricts it.
pub fn search_params(args: &SearchArgs) -> (r: Vec<(String, String)>)
    ensures
        r@.len() >= 1,
        r@[0].0@ == "query"@,
        r@[0].1@ == args.package_name@,
        facets_param(args.mc_version@, args.package_type) matches Some(f) ==> r@.len() == 2
            && r@[1].0@ == "facets"@ && r@[1].1@ == f,
        facets_param(args.mc_version@, args.package_type) is None ==> r@.len() == 1,
{
    let mut r: Vec<(String, String)> = Vec::new();
    r.push((String::from_str("query"), args.package_name.clone()));
    if let Some(f) = search_facets(args) {
        r.push((String::from_str("facets"), f));
    }
    r
}

/// What an unsuccessful answer of the API reports: its error record, where
/// the body held one, or else its status.
pub open spec fn upstream_report(status: u32, error: Option<(Seq<char>, Seq<char>)>) -> Seq<char> {
    match error {
        Some((code, description)) => code + ": "@ + description,
        None => "the server answered with status "@ + decimal(status as nat),
    }
}

/// An unsuccessful answer of the API: its status and, where the body held
/// one, its error record, kept as it came.
#[derive(Clone, Debug, PartialEq, Eq)]
pub struct UpstreamError {
    pub status: u32,
    pub error: Option<Error>,
}

impl UpstreamError {
    /// The failure as one line: the error record where there is one, else the
    /// status.
    pub fn message(&self) -> (r: String)
        ensures
            r@ == upstream_report(
                self.status,
                match self.error {
                    Some(e) => Some((e.error@, e.description@)),
                    None => None,
                },
            ),
    {
        match &self.error {
            Some(e) => e.message(),
            None => {
                let digits = decimal_text(self.status as u64);
                concat_str("the server answered with status ", digits.as_str())
            },
        }
    }
}

/// Why a request to the API brought no record.
#[derive(Clone, Debug, PartialEq, Eq)]
pub enum RequestError {
    /// The server answered with an unsuccessful status.
    Upstream(UpstreamError),
    /// No answer came, or its body could not be read, for this reason.
    Transport(String),
}

} // verus!
