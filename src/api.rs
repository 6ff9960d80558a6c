//! The records that the repository's web API answers with.
use vstd::prelude::*;

use std::collections::HashMap;

use crate::text::{concat_str, decimal, decimal_text, signed_decimal, signed_decimal_text};

verus! {

/// One page of search hits.
#[derive(Debug)]
pub struct SearchResponse {
    pub hits: Vec<ModResult>,
    pub offset: isize,
    pub limit: isize,
    pub total_hits: isize,
}

/// One search hit.
#[derive(Debug)]
pub struct ModResult {
    pub slug: String,
    pub title: String,
    pub description: String,
    pub categories: Vec<String>,
    pub display_categories: Vec<String>,
    pub client_side: String,
    pub server_side: String,
    pub project_type: String,
    pub downloads: isize,
    pub icon_url: String,
    pub project_id: String,
    pub author: String,
    pub versions: Vec<String>,
    pub follows: isize,
    pub date_created: String,
    pub date_modified: String,
    pub latest_version: String,
    pub license: String,
    pub gallery: Vec<String>,
}

/// A hit's summary from its pieces: the title, the latest game version (or a
/// marker where there is none) and the downloads. The pieces may carry the
/// terminal's styling.
pub open spec fn info_text(title: Seq<char>, latest: Option<Seq<char>>, downloads: Seq<char>) -> Seq<
    char,
> {
    match latest {
        Some(v) => title + " ["@ + v + "] ("@ + downloads + " downloads)"@,
        None => title + " [no releases]"@,
    }
}

/// The summary of a hit: its title, its latest game version (the last one
/// listed) and its downloads, or a marker where no version is listed.
pub open spec fn info_line(title: Seq<char>, versions: Seq<String>, downloads: int) -> Seq<char> {
    info_text(
        title,
        if versions.len() > 0 {
            Some(versions.last()@)
        } else {
            None
        },
        signed_decimal(downloads),
    )
}

/// The decimal label of a listed position, right-aligned to two columns.
pub open spec fn index_label(index: nat) -> Seq<char> {
    if decimal(index).len() < 2 {
        seq![' '] + decimal(index)
    } else {
        decimal(index)
    }
}

/// How a hit is shown from its pieces: the label and summary, then the
/// description indented on a line of its own.
pub open spec fn hit_text(label: Seq<char>, info: Seq<char>, description: Seq<char>) -> Seq<char> {
    label + " "@ + info + "\n    "@ + description
}

/// How a hit is shown at the listed position `index`.
pub open spec fn hit_lines(index: nat, info: Seq<char>, description: Seq<char>) -> Seq<char> {
    hit_text(index_label(index), info, description)
}

/// A hit's summary from its pieces, which may carry the terminal's styling.
pub fn compose_info(title: &str, latest: Option<&str>, downloads: &str) -> (r: String)
    ensures
        r@ == info_text(
            title@,
            match latest {
                Some(v) => Some(v@),
                None => None,
            },
            downloads@,
        ),
{
    match latest {
        Some(v) => {
            let s = concat_str(title, " [");
            let s = concat_str(s.as_str(), v);
            let s = concat_str(s.as_str(), "] (");
            let s = concat_str(s.as_str(), downloads);
            concat_str(s.as_str(), " downloads)")
        },
        None => concat_str(title, " [no releases]"),
    }
}

/// How a hit is shown, from its label, summary and description.
pub fn compose_hit(label: &str, info: &str, description: &str) -> (r: String)
    ensures
        r@ == hit_text(label@, info@, description@),
{
    let s = concat_str(label, " ");
    let s = concat_str(s.as_str(), info);
    let s = concat_str(s.as_str(), "\n    ");
    concat_str(s.as_str(), description)
}

/// The label of the listed position `index`.
pub fn index_label_text(index: usize) -> (r: String)
    ensures
        r@ == index_label(index as nat),
{
    let digits = decimal_text(index as u64);
    if digits.unicode_len() < 2 {
        proof {
            reveal_strlit(" ");
        }
        concat_str(" ", digits.as_str())
    } else {
        digits
    }
}

impl ModResult {
    /// The one-line summary of this hit.
    pub fn format_info(&self) -> (r: String)
        ensures
            r@ == info_line(self.title@, self.versions@, self.downloads as int),
    {
        let n = self.versions.len();
        let downloads = signed_decimal_text(self.downloads as i64);
        if n > 0 {
            compose_info(self.title.as_str(), Some(self.versions[n - 1].as_str()), downloads.as_str())
        } else {
            compose_info(self.title.as_str(), None, downloads.as_str())
        }
    }

    /// The description of this hit.
    pub fn format_description(&self) -> (r: String)
        ensures
            r@ == self.description@,
    {
        self.description.clone()
    }

    /// The text that shows this hit at the listed position `index`.
    pub fn display(&self, index: usize) -> (r: String)
        ensures
            r@ == hit_lines(
                index as nat,
                info_line(self.title@, self.versions@, self.downloads as int),
                self.description@,
            ),
    {
        let label = index_label_text(index);
        let info = self.format_info();
        let description = self.format_description();
        compose_hit(label.as_str(), info.as_str(), description.as_str())
    }
}

/// A project: the full record of one package.
#[derive(Debug)]
pub struct ModInfo {
    pub slug: String,
    pub title: String,
    pub description: String,
    pub categories: Vec<String>,
    pub additional_categories: Vec<String>,
    pub client_side: String,
    pub server_side: String,
    pub body: String,
    pub issues_url: Option<String>,
    pub source_url: Option<String>,
    pub wiki_url: Option<String>,
    pub discord_url: Option<String>,
    pub donation_urls: Option<Vec<DonationLink>>,
    pub project_type: String,
    pub downloads: isize,
    pub icon_url: Option<String>,
    pub id: String,
    pub team: String,
    pub body_url: Option<String>,
    pub moderator_message: Option<String>,
    pub published: String,
    pub updated: String,
    pub approved: Option<String>,
    pub followers: isize,
    pub status: String,
    pub license: License,
    /// The ids of the project's versions, newest first.
    pub versions: Vec<String>,
    pub gallery: Option<Vec<GalleryEntry>>,
}

/// An image shown with a project.
#[derive(Debug)]
pub struct GalleryEntry {
    pub url: String,
    pub featured: bool,
    pub title: String,
    pub description: String,
    pub created: String,
}

/// The license of a project.
#[derive(Debug)]
pub struct License {
    pub id: String,
    pub name: String,
    pub url: String,
}

/// Where a project takes donations.
#[derive(Debug)]
pub struct DonationLink {
    pub id: String,
    pub platform: String,
    pub url: String,
}

/// One release of a project, with its files.
#[derive(Debug)]
pub struct ModVersion {
    pub name: String,
    pub version_number: String,
    pub changelog: Option<String>,
    pub game_versions: Vec<String>,
    pub version_type: String,
    pub loaders: Vec<String>,
    pub featured: bool,
    pub id: String,
    pub project_id: String,
    pub author_id: String,
    pub date_published: String,
    pub downloads: isize,
    pub changelog_url: Option<String>,
    pub files: Vec<ModVersionFile>,
}

/// One file of a release: where to fetch it, its name, its size and its
/// digests by algorithm (kept, not checked).
#[derive(Debug)]
pub struct ModVersionFile {
    pub hashes: HashMap<String, String>,
    pub url: String,
    pub filename: String,
    pub primary: bool,
    pub size: isize,
}

/// The error record that the API answers with on an unsuccessful status.
#[derive(Clone, Debug, PartialEq, Eq)]
pub struct Error {
    pub error: String,
    pub description: String,
}

impl Error {
    /// The error as one line: its code, a colon, its description.
    pub fn message(&self) -> (r: String)
        ensures
            r@ == self.error@ + ": "@ + self.description@,
    {
        let s = concat_str(self.error.as_str(), ": ");
        concat_str(s.as_str(), self.description.as_str())
    }
}

} // verus!
