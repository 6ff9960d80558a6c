use std::collections::HashMap;

use hopper::api::{Error, ModVersionFile};
use hopper::client::UpstreamError;
use hopper::fetch::{
    is_safe_file_name, is_success, DownloadFailure, DownloadOutcome, FetchAction, FetchPhase,
    FileFetch, Progress,
};

fn file(name: &str) -> ModVersionFile {
    let mut hashes = HashMap::new();
    hashes.insert("sha1".to_string(), "abc123".to_string());
    ModVersionFile {
        hashes,
        url: format!("https://cdn.example/{}", name),
        filename: name.to_string(),
        primary: true,
        size: 1000,
    }
}

#[test]
fn progress_counts_each_chunk_and_completes() {
    let (mut f, a) = FileFetch::begin(&file("mod.jar"), "mods", true);
    assert_eq!(a, FetchAction::Request("https://cdn.example/mod.jar".to_string()));
    assert_eq!(f.on_response(200, Some(1000)), FetchAction::Open("mods/mod.jar".to_string()));
    let mut seen = vec![];
    for _ in 0..4 {
        let p = f.on_chunk(250);
        assert_eq!(p.expected, Some(1000));
        seen.push(p.received);
    }
    assert_eq!(seen, vec![250, 500, 750, 1000]);
    assert_eq!(f.on_end(), DownloadOutcome::Completed(1000));
    assert_eq!(f.phase, FetchPhase::Done);
}

#[test]
fn declined_file_is_skipped_without_a_request() {
    let (mut f, a) = FileFetch::begin(&file("mod.jar"), "mods", false);
    assert_eq!(a, FetchAction::Confirm("mod.jar".to_string()));
    assert_eq!(f.on_confirm(false), FetchAction::Finish(DownloadOutcome::SkippedByUser));
    assert_eq!(f.phase, FetchPhase::Done);
}

#[test]
fn accepted_file_is_requested() {
    let (mut f, _) = FileFetch::begin(&file("a.jar"), "/tmp/x", false);
    assert_eq!(f.on_confirm(true), FetchAction::Request("https://cdn.example/a.jar".to_string()));
    assert_eq!(f.path, "/tmp/x/a.jar");
}

#[test]
fn unsuccessful_status_fails() {
    let (mut f, _) = FileFetch::begin(&file("a.jar"), "d", true);
    assert_eq!(f.on_response(404, None), FetchAction::ReadErrorBody);
    assert_eq!(f.phase, FetchPhase::Rejected(404));
    let e = Error { error: "not_found".to_string(), description: "no file".to_string() };
    assert_eq!(
        f.on_error_body(Some(e.clone())),
        DownloadOutcome::Failed(DownloadFailure::Upstream(UpstreamError { status: 404, error: Some(e) }))
    );
    assert_eq!(f.phase, FetchPhase::Done);
}

#[test]
fn write_error_fails() {
    let (mut f, _) = FileFetch::begin(&file("a.jar"), "d", true);
    f.on_response(200, None);
    f.on_chunk(10);
    assert_eq!(
        f.on_write_error("disk full".to_string()),
        DownloadOutcome::Failed(DownloadFailure::Io("disk full".to_string()))
    );
}

#[test]
fn names_that_leave_the_directory_are_refused() {
    let (f, a) = FileFetch::begin(&file("../evil.jar"), "d", true);
    assert_eq!(
        a,
        FetchAction::Finish(DownloadOutcome::Failed(DownloadFailure::UnsafeName(
            "../evil.jar".to_string()
        )))
    );
    assert_eq!(f.phase, FetchPhase::Done);
    assert!(!is_safe_file_name(".."));
    assert!(!is_safe_file_name(""));
    assert!(!is_safe_file_name("a\\b"));
    assert!(is_safe_file_name("sodium-0.5.jar"));
}

#[test]
fn percent_of_announced_length() {
    assert_eq!(Progress { received: 250, expected: Some(1000) }.percent(), Some(25));
    assert_eq!(Progress { received: 999, expected: Some(1000) }.percent(), Some(99));
    assert_eq!(Progress { received: 1500, expected: Some(1000) }.percent(), Some(100));
    assert_eq!(Progress { received: 5, expected: None }.percent(), None);
    assert_eq!(Progress { received: 5, expected: Some(0) }.percent(), None);
}

#[test]
fn success_statuses() {
    assert!(is_success(200));
    assert!(is_success(299));
    assert!(!is_success(300));
    assert!(!is_success(199));
}

#[test]
fn broken_transfer_fails() {
    let (mut f, _) = FileFetch::begin(&file("a.jar"), "d", true);
    assert_eq!(
        f.on_transfer_error("connection reset".to_string()),
        DownloadOutcome::Failed(DownloadFailure::Transfer("connection reset".to_string()))
    );
    assert_eq!(f.phase, FetchPhase::Done);
}
