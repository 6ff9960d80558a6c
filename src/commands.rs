//! The `get` command: listing search hits, reading the user's choice, and
//! walking each chosen project to its newest version's files. The decisions
//! are made here; the caller performs each action and reports its result.
use vstd::prelude::*;

use crate::api::{hit_lines, info_line, ModResult, SearchResponse};
use crate::client::RequestError;
use crate::fetch::{DownloadFailure, DownloadOutcome};
use crate::selection::{
    index_set, parse_selection, selection_of, strictly_ascending, SelectionError, SelectionFault,
};

verus! {

/// Which hit is listed at the `k`-th place among `n`: the same one going
/// forward, the mirrored one going in reverse.
pub open spec fn shown_position(n: int, reverse: bool, k: int) -> int {
    if reverse {
        n - 1 - k
    } else {
        k
    }
}

/// How the hit `h` is shown under the label `index`.
pub open spec fn shown_hit(h: ModResult, index: nat) -> Seq<char> {
    hit_lines(index, info_line(h.title@, h.versions@, h.downloads as int), h.description@)
}

/// The label and the hit index of each place of a listing of `n` hits, in
/// the order shown: the `k`-th place is labelled `k + 1` whichever way the
/// hits are listed.
pub fn display_order(n: usize, reverse: bool) -> (r: Vec<(usize, usize)>)
    ensures
        r@.len() == n,
        forall|k: int|
            0 <= k < n ==> #[trigger] r@[k] == ((k + 1) as usize, shown_position(
                n as int,
                reverse,
                k,
            ) as usize),
{
    let mut r: Vec<(usize, usize)> = Vec::new();
    let mut k: usize = 0;
    while k < n
        invariant
            k <= n,
            r@.len() == k,
            forall|j: int|
                0 <= j < k ==> #[trigger] r@[j] == ((j + 1) as usize, shown_position(
                    n as int,
                    reverse,
                    j,
                ) as usize),
        decreases n - k,
    {
        let position = if reverse {
            n - 1 - k
        } else {
            k
        };
        r.push((k + 1, position));
        k = k + 1;
    }
    r
}

/// The text of each listed hit, in the order shown. The label of the `k`-th
/// listed hit is always `k + 1`, whichever way the hits are listed: going in
/// reverse lists the last hit first, under the label 1.
pub fn display_search_results(response: &SearchResponse, reverse: bool) -> (r: Vec<String>)
    ensures
        r@.len() == response.hits@.len(),
        forall|k: int|
            0 <= k < r@.len() ==> #[trigger] r@[k]@ == shown_hit(
                response.hits@[shown_position(response.hits@.len() as int, reverse, k)],
                (k + 1) as nat,
            ),
{
    let n = response.hits.len();
    let mut r: Vec<String> = Vec::new();
    let mut k: usize = 0;
    while k < n
        invariant
            k <= n,
            n == response.hits@.len(),
            r@.len() == k,
            forall|j: int|
                0 <= j < k ==> #[trigger] r@[j]@ == shown_hit(
                    response.hits@[shown_position(n as int, reverse, j)],
                    (j + 1) as nat,
                ),
        decreases n - k,
    {
        let position = if reverse {
            n - 1 - k
        } else {
            k
        };
        r.push(response.hits[position].display(k + 1));
        k = k + 1;
    }
    r
}

/// Why `get` stopped before it was done.
#[derive(Clone, Debug, PartialEq, Eq)]
pub enum GetFailure {
    /// A request to the API failed.
    Request(RequestError),
    /// The user's choice was refused.
    Selection(SelectionError),
    /// A file could not be fetched.
    Download(DownloadFailure),
}

/// How `get` ended.
#[derive(Clone, Debug, PartialEq, Eq)]
pub enum GetOutcome {
    /// The search found nothing; nothing more was done.
    NoResults,
    /// The user chose nothing; nothing was fetched.
    NothingSelected,
    /// Every chosen project was walked to the end.
    Completed,
    /// A step failed; what was fetched before it stays.
    Failed(GetFailure),
}

/// Where `get` stands.
#[derive(Clone, Copy, Debug, PartialEq, Eq, Structural)]
pub enum GetPhase {
    /// Waiting for the search hits.
    Searching,
    /// Waiting for the user's choice among the hits.
    Selecting,
    /// Waiting for the current project.
    Project,
    /// Waiting for the current project's newest version.
    Version,
    /// Fetching the files of that version, one after another.
    Files,
    Done,
}

/// What the caller is to do next.
#[derive(Clone, Debug, PartialEq, Eq)]
pub enum GetAction {
    /// Run the search.
    Search,
    /// List the hits and read the user's choice.
    AskSelection,
    /// Fetch the project of the hit at this index.
    FetchProject(usize),
    /// Fetch the version with this id.
    FetchVersion(String),
    /// Fetch the file at this index of the current version.
    FetchFile(usize),
    /// `get` is over.
    Finish(GetOutcome),
}

/// The state of one run of `get`.
#[derive(Clone, Debug)]
pub struct GetSession {
    pub phase: GetPhase,
    /// How many hits the search found.
    pub hits: usize,
    /// The chosen hits' indices, ascending.
    pub chosen: Vec<usize>,
    /// The position in `chosen` of the hit being walked.
    pub current: usize,
    /// How many files the current version has.
    pub files: usize,
    /// The index of the file being fetched.
    pub file: usize,
}

impl GetSession {
    /// The session is consistent: a hit being walked is one of the chosen,
    /// and a file being fetched is one of its version's.
    pub open spec fn wf(&self) -> bool {
        &&& (self.phase == GetPhase::Project || self.phase == GetPhase::Version || self.phase
            == GetPhase::Files) ==> self.current < self.chosen@.len()
        &&& self.phase == GetPhase::Files ==> self.file < self.files
    }

    /// After the current hit: the next chosen hit's project is fetched, or,
    /// after the last one, `get` is complete.
    pub open spec fn moved_on(old: GetSession, new: GetSession, r: GetAction) -> bool {
        &&& new.chosen == old.chosen
        &&& new.hits == old.hits
        &&& if old.current + 1 < old.chosen@.len() {
            &&& new.phase == GetPhase::Project
            &&& new.current == old.current + 1
            &&& r == GetAction::FetchProject(old.chosen@[old.current + 1])
        } else {
            &&& new.phase == GetPhase::Done
            &&& r == GetAction::Finish(GetOutcome::Completed)
        }
    }

    /// A new run, which starts with the search.
    pub fn start() -> (r: (GetSession, GetAction))
        ensures
            r.0.wf(),
            r.0.phase == GetPhase::Searching,
            r.1 == GetAction::Search,
    {
        let s = GetSession {
            phase: GetPhase::Searching,
            hits: 0,
            chosen: Vec::new(),
            current: 0,
            files: 0,
            file: 0,
        };
        (s, GetAction::Search)
    }

    fn move_on(&mut self) -> (r: GetAction)
        requires
            old(self).wf(),
            old(self).current < old(self).chosen@.len(),
        ensures
            final(self).wf(),
            GetSession::moved_on(*old(self), *final(self), r),
    {
        if self.current < self.chosen.len() - 1 {
            self.current = self.current + 1;
            self.phase = GetPhase::Project;
            GetAction::FetchProject(self.chosen[self.current])
        } else {
            self.phase = GetPhase::Done;
            GetAction::Finish(GetOutcome::Completed)
        }
    }

    /// The search found `hits` hits: none ends `get`; otherwise the user
    /// chooses among them.
    pub fn on_search(&mut self, hits: usize) -> (r: GetAction)
        requires
            old(self).wf(),
            old(self).phase == GetPhase::Searching,
        ensures
            final(self).wf(),
            final(self).hits == hits,
            hits == 0 ==> final(self).phase == GetPhase::Done && r == GetAction::Finish(
                GetOutcome::NoResults,
            ),
            hits > 0 ==> final(self).phase == GetPhase::Selecting && r == GetAction::AskSelection,
    {
        self.hits = hits;
        if hits == 0 {
            self.phase = GetPhase::Done;
            GetAction::Finish(GetOutcome::NoResults)
        } else {
            self.phase = GetPhase::Selecting;
            GetAction::AskSelection
        }
    }

    /// The user typed `input` to choose among the hits. A refused choice ends
    /// `get` as failed and an empty one ends it having done nothing; otherwise
    /// the chosen hits are walked in ascending order, from the first.
    pub fn on_selection(&mut self, input: &str) -> (r: GetAction)
        requires
            old(self).wf(),
            old(self).phase == GetPhase::Selecting,
        ensures
            final(self).wf(),
            final(self).hits == old(self).hits,
            selection_of(input@, old(self).hits as int) matches Err(f) ==> final(self).phase
                == GetPhase::Done && (r matches GetAction::Finish(
                GetOutcome::Failed(GetFailure::Selection(e)),
            ) && e@ == f),
            selection_of(input@, old(self).hits as int) == Ok::<Set<int>, SelectionFault>(
                Set::empty(),
            ) ==> final(self).phase == GetPhase::Done && r == GetAction::Finish(
                GetOutcome::NothingSelected,
            ),
            selection_of(input@, old(self).hits as int) matches Ok(chosen) ==> (chosen != Set::<
                int,
            >::empty() ==> final(self).phase == GetPhase::Project && final(self).current == 0
                && index_set(final(self).chosen@) == chosen && strictly_ascending(
                final(self).chosen@,
            ) && r == GetAction::FetchProject(final(self).chosen@[0])),
    {
        match parse_selection(input, self.hits) {
            Err(e) => {
                self.phase = GetPhase::Done;
                GetAction::Finish(GetOutcome::Failed(GetFailure::Selection(e)))
            },
            Ok(v) => {
                if v.len() == 0 {
                    assert(index_set(v@) =~= Set::<int>::empty());
                    self.phase = GetPhase::Done;
                    GetAction::Finish(GetOutcome::NothingSelected)
                } else {
                    assert(index_set(v@).contains(v@[0] as int));
                    let first = v[0];
                    self.chosen = v;
                    self.current = 0;
                    self.phase = GetPhase::Project;
                    GetAction::FetchProject(first)
                }
            },
        }
    }

    /// The current hit's project lists the ids of its `versions`, newest
    /// first. The newest is fetched; a project with none is passed over.
    pub fn on_project(&mut self, versions: &Vec<String>) -> (r: GetAction)
        requires
            old(self).wf(),
            old(self).phase == GetPhase::Project,
        ensures
            final(self).wf(),
            versions@.len() > 0 ==> final(self).phase == GetPhase::Version && final(self).chosen
                == old(self).chosen && final(self).current == old(self).current && (r matches GetAction::FetchVersion(
                id,
            ) && id@ == versions@[0]@),
            versions@.len() == 0 ==> GetSession::moved_on(*old(self), *final(self), r),
    {
        if versions.len() > 0 {
            self.phase = GetPhase::Version;
            GetAction::FetchVersion(versions[0].clone())
        } else {
            self.move_on()
        }
    }

    /// The newest version has `files` files: they are fetched in order, from
    /// the first; a version without files is passed over.
    pub fn on_version(&mut self, files: usize) -> (r: GetAction)
        requires
            old(self).wf(),
            old(self).phase == GetPhase::Version,
        ensures
            final(self).wf(),
            files > 0 ==> final(self).phase == GetPhase::Files && final(self).chosen == old(
                self,
            ).chosen && final(self).current == old(self).current && final(self).files == files
                && final(self).file == 0 && r == GetAction::FetchFile(0),
            files == 0 ==> GetSession::moved_on(*old(self), *final(self), r),
    {
        if files > 0 {
            self.files = files;
            self.file = 0;
            self.phase = GetPhase::Files;
            GetAction::FetchFile(0)
        } else {
            self.move_on()
        }
    }

    /// The current file ended with `outcome`. A failure ends `get`; otherwise
    /// the next file is fetched, or, after the last, the next hit is walked.
    pub fn on_file(&mut self, outcome: DownloadOutcome) -> (r: GetAction)
        requires
            old(self).wf(),
            old(self).phase == GetPhase::Files,
        ensures
            final(self).wf(),
            outcome matches DownloadOutcome::Failed(f) ==> final(self).phase == GetPhase::Done
                && r == GetAction::Finish(GetOutcome::Failed(GetFailure::Download(f))),
            !(outcome is Failed) && old(self).file + 1 < old(self).files ==> final(self).phase
                == GetPhase::Files && final(self).chosen == old(self).chosen && final(self).current
                == old(self).current && final(self).files == old(self).files && final(self).file
                == old(self).file + 1 && r == GetAction::FetchFile((old(self).file + 1) as usize),
            !(outcome is Failed) && old(self).file + 1 >= old(self).files ==> GetSession::moved_on(
                *old(self),
                *final(self),
                r,
            ),
    {
        match outcome {
            DownloadOutcome::Failed(f) => {
                self.phase = GetPhase::Done;
                GetAction::Finish(GetOutcome::Failed(GetFailure::Download(f)))
            },
            _ => {
                if self.file + 1 < self.files {
                    self.file = self.file + 1;
                    GetAction::FetchFile(self.file)
                } else {
                    self.move_on()
                }
            },
        }
    }

    /// A request to the API failed with `error`: `get` ends as failed.
    pub fn on_request_error(&mut self, error: RequestError) -> (r: GetAction)
        requires
            old(self).wf(),
        ensures
            final(self).wf(),
            final(self).phase == GetPhase::Done,
            r == GetAction::Finish(GetOutcome::Failed(GetFailure::Request(error))),
    {
        self.phase = GetPhase::Done;
        GetAction::Finish(GetOutcome::Failed(GetFailure::Request(error)))
    }
}

} // verus!
