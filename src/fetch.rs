//! Fetching one file of a release: the decisions of the transfer, from the
//! optional confirmation to the final outcome. The caller performs each
//! action (asking, sending the request, writing) and reports what happened.
use vstd::prelude::*;

use crate::api::{Error, ModVersionFile};
use crate::client::UpstreamError;
use crate::text::{concat_str, find_char, same_text};

verus! {

/// An HTTP status that reports success.
pub open spec fn success_status(status: u32) -> bool {
    200 <= status < 300
}

/// Whether an HTTP status reports success.
pub fn is_success(status: u32) -> (r: bool)
    ensures
        r == success_status(status),
{
    200 <= status && status < 300
}

/// A file name that names a file inside the destination directory: not
/// empty, not `.` or `..`, and without a path separator or NUL.
pub open spec fn safe_file_name(n: Seq<char>) -> bool {
    &&& n.len() > 0
    &&& n != "."@
    &&& n != ".."@
    &&& forall|i: int| 0 <= i < n.len() ==> n[i] != '/' && n[i] != '\\' && n[i] != '\0'
}

/// Whether a file name names a file inside the destination directory.
pub fn is_safe_file_name(n: &str) -> (r: bool)
    ensures
        r == safe_file_name(n@),
{
    if n.unicode_len() == 0 || same_text(n, ".") || same_text(n, "..") {
        return false;
    }
    let slash = find_char(n, '/');
    let backslash = find_char(n, '\\');
    let nul = find_char(n, '\0');
    if slash.is_some() || backslash.is_some() || nul.is_some() {
        return false;
    }
    true
}

/// Where the file `name` goes inside the directory `dir`.
pub open spec fn destination(dir: Seq<char>, name: Seq<char>) -> Seq<char> {
    dir + "/"@ + name
}

/// Why a file could not be fetched.
#[derive(Clone, Debug, PartialEq, Eq)]
pub enum DownloadFailure {
    /// The server answered with an unsuccessful status.
    Upstream(UpstreamError),
    /// Writing the file failed, for this reason.
    Io(String),
    /// The file's name would not name a file inside the destination.
    UnsafeName(String),
    /// The transfer itself broke off, for this reason.
    Transfer(String),
}

/// What became of one file.
#[derive(Clone, Debug, PartialEq, Eq)]
pub enum DownloadOutcome {
    /// The file was written whole; this many bytes.
    Completed(u64),
    /// The user declined it; nothing was requested.
    SkippedByUser,
    Failed(DownloadFailure),
}

/// Where a transfer stands.
#[derive(Clone, Copy, Debug, PartialEq, Eq, Structural)]
pub enum FetchPhase {
    /// Waiting for the user's answer.
    Confirming,
    /// Waiting for the response to the request.
    Requesting,
    /// Receiving the body.
    Streaming,
    /// The response had this unsuccessful status; its body is being read.
    Rejected(u32),
    Done,
}

/// What the caller is to do next.
#[derive(Clone, Debug, PartialEq, Eq)]
pub enum FetchAction {
    /// Ask whether to fetch the file of this name.
    Confirm(String),
    /// Send a request for this address.
    Request(String),
    /// Create or truncate the file at this path, and stream the body into it.
    Open(String),
    /// Read the body as the API's error record, and report it.
    ReadErrorBody,
    /// The transfer is over.
    Finish(DownloadOutcome),
}

/// How much of the body has arrived, and how much was announced.
#[derive(Clone, Copy, Debug, PartialEq, Eq, Structural)]
pub struct Progress {
    pub received: u64,
    pub expected: Option<u64>,
}

impl Progress {
    /// The share of the announced length that has arrived, in whole percent
    /// and at most 100; none where no length, or a zero one, was announced.
    pub fn percent(&self) -> (r: Option<u64>)
        ensures
            match self.expected {
                Some(t) if t > 0 => r == Some(
                    if self.received * 100 / (t as int) >= 100 {
                        100
                    } else {
                        (self.received * 100 / (t as int)) as u64
                    },
                ),
                _ => r is None,
            },
    {
        match self.expected {
            Some(t) if t > 0 => {
                let scaled: u128 = self.received as u128 * 100;
                let p: u128 = scaled / t as u128;
                if p >= 100 {
                    Some(100)
                } else {
                    Some(p as u64)
                }
            },
            _ => None,
        }
    }
}

/// The transfer of one file.
#[derive(Clone, Debug)]
pub struct FileFetch {
    pub filename: String,
    pub url: String,
    /// Where the file is written.
    pub path: String,
    pub phase: FetchPhase,
    /// The length the response announced, if it did.
    pub expected: Option<u64>,
    /// The bytes received so far.
    pub received: u64,
}

impl FileFetch {
    /// Starts the transfer of `file` into the directory `dest_dir`. A name
    /// that would leave the directory ends it at once; otherwise the user is
    /// asked first unless `auto_accept` holds.
    pub fn begin(file: &ModVersionFile, dest_dir: &str, auto_accept: bool) -> (r: (
        FileFetch,
        FetchAction,
    ))
        ensures
            r.0.filename@ == file.filename@,
            r.0.url@ == file.url@,
            r.0.path@ == destination(dest_dir@, file.filename@),
            r.0.received == 0,
            r.0.expected is None,
            !safe_file_name(file.filename@) ==> r.0.phase == FetchPhase::Done && (r.1 matches FetchAction::Finish(
                DownloadOutcome::Failed(DownloadFailure::UnsafeName(n)),
            ) && n@ == file.filename@),
            safe_file_name(file.filename@) && auto_accept ==> r.0.phase == FetchPhase::Requesting
                && (r.1 matches FetchAction::Request(u) && u@ == file.url@),
            safe_file_name(file.filename@) && !auto_accept ==> r.0.phase == FetchPhase::Confirming
                && (r.1 matches FetchAction::Confirm(n) && n@ == file.filename@),
    {
        let dir = concat_str(dest_dir, "/");
        let path = concat_str(dir.as_str(), file.filename.as_str());
        let safe = is_safe_file_name(file.filename.as_str());
        let phase = if !safe {
            FetchPhase::Done
        } else if auto_accept {
            FetchPhase::Requesting
        } else {
            FetchPhase::Confirming
        };
        let fetch = FileFetch {
            filename: file.filename.clone(),
            url: file.url.clone(),
            path,
            phase,
            expected: None,
            received: 0,
        };
        let action = if !safe {
            FetchAction::Finish(
                DownloadOutcome::Failed(DownloadFailure::UnsafeName(file.filename.clone())),
            )
        } else if auto_accept {
            FetchAction::Request(file.url.clone())
        } else {
            FetchAction::Confirm(file.filename.clone())
        };
        (fetch, action)
    }

    /// The user answered whether to fetch the file: yes sends the request, no
    /// ends the transfer without one.
    pub fn on_confirm(&mut self, yes: bool) -> (r: FetchAction)
        requires
            old(self).phase == FetchPhase::Confirming,
        ensures
            final(self).filename == old(self).filename,
            final(self).url == old(self).url,
            final(self).path == old(self).path,
            final(self).received == old(self).received,
            final(self).expected == old(self).expected,
            yes ==> final(self).phase == FetchPhase::Requesting && (r matches FetchAction::Request(u)
                && u@ == old(self).url@),
            !yes ==> final(self).phase == FetchPhase::Done && r == FetchAction::Finish(
                DownloadOutcome::SkippedByUser,
            ),
    {
        if yes {
            self.phase = FetchPhase::Requesting;
            FetchAction::Request(self.url.clone())
        } else {
            self.phase = FetchPhase::Done;
            FetchAction::Finish(DownloadOutcome::SkippedByUser)
        }
    }

    /// The response arrived with `status` and, where it announced one, the
    /// length of its body. A success opens the file; otherwise the body is
    /// read as an error record.
    pub fn on_response(&mut self, status: u32, content_length: Option<u64>) -> (r: FetchAction)
        requires
            old(self).phase == FetchPhase::Requesting,
        ensures
            final(self).filename == old(self).filename,
            final(self).url == old(self).url,
            final(self).path == old(self).path,
            final(self).received == 0,
            success_status(status) ==> final(self).phase == FetchPhase::Streaming
                && final(self).expected == content_length && (r matches FetchAction::Open(p)
                && p@ == old(self).path@),
            !success_status(status) ==> final(self).phase == FetchPhase::Rejected(status)
                && final(self).expected == old(self).expected && r == FetchAction::ReadErrorBody,
    {
        self.received = 0;
        if is_success(status) {
            self.phase = FetchPhase::Streaming;
            self.expected = content_length;
            FetchAction::Open(self.path.clone())
        } else {
            self.phase = FetchPhase::Rejected(status);
            FetchAction::ReadErrorBody
        }
    }

    /// A chunk of `len` bytes was written; the progress after it.
    pub fn on_chunk(&mut self, len: u64) -> (r: Progress)
        requires
            old(self).phase == FetchPhase::Streaming,
            old(self).received + len <= u64::MAX,
        ensures
            final(self).filename == old(self).filename,
            final(self).url == old(self).url,
            final(self).path == old(self).path,
            final(self).phase == FetchPhase::Streaming,
            final(self).expected == old(self).expected,
            final(self).received == old(self).received + len,
            r == (Progress { received: final(self).received, expected: old(self).expected }),
    {
        self.received = self.received + len;
        Progress { received: self.received, expected: self.expected }
    }

    /// Writing failed for `reason`: the transfer ends as failed.
    pub fn on_write_error(&mut self, reason: String) -> (r: DownloadOutcome)
        requires
            old(self).phase == FetchPhase::Streaming,
        ensures
            final(self).phase == FetchPhase::Done,
            final(self).received == old(self).received,
            r == DownloadOutcome::Failed(DownloadFailure::Io(reason)),
    {
        self.phase = FetchPhase::Done;
        DownloadOutcome::Failed(DownloadFailure::Io(reason))
    }

    /// The connection failed for `reason` before the body ended: the transfer
    /// ends as failed.
    pub fn on_transfer_error(&mut self, reason: String) -> (r: DownloadOutcome)
        requires
            old(self).phase == FetchPhase::Requesting || old(self).phase == FetchPhase::Streaming
                || old(self).phase is Rejected,
        ensures
            final(self).phase == FetchPhase::Done,
            final(self).received == old(self).received,
            r == DownloadOutcome::Failed(DownloadFailure::Transfer(reason)),
    {
        self.phase = FetchPhase::Done;
        DownloadOutcome::Failed(DownloadFailure::Transfer(reason))
    }

    /// The body of a refused response held `error`, where it was an error
    /// record: the transfer ends as failed, with the status and the record.
    pub fn on_error_body(&mut self, error: Option<Error>) -> (r: DownloadOutcome)
        requires
            old(self).phase is Rejected,
        ensures
            final(self).phase == FetchPhase::Done,
            final(self).received == old(self).received,
            r == DownloadOutcome::Failed(
                DownloadFailure::Upstream((UpstreamError { status: old(self).phase->Rejected_0, error })),
            ),
    {
        let status = match self.phase {
            FetchPhase::Rejected(s) => s,
            _ => 0,
        };
        self.phase = FetchPhase::Done;
        DownloadOutcome::Failed(DownloadFailure::Upstream(UpstreamError { status, error }))
    }

    /// The body ended: the transfer is complete, with every byte received.
    pub fn on_end(&mut self) -> (r: DownloadOutcome)
        requires
            old(self).phase == FetchPhase::Streaming,
        ensures
            final(self).phase == FetchPhase::Done,
            final(self).received == old(self).received,
            r == DownloadOutcome::Completed(old(self).received),
    {
        self.phase = FetchPhase::Done;
        DownloadOutcome::Completed(self.received)
    }
}

} // verus!
