use hopper::commands::display_order;
use hopper::api::{Error, ModResult, SearchResponse};
use hopper::client::{RequestError, UpstreamError};
use hopper::commands::{display_search_results, GetAction, GetFailure, GetOutcome, GetPhase, GetSession};
use hopper::fetch::{DownloadFailure, DownloadOutcome};
use hopper::selection::SelectionError;

fn hit(title: &str, versions: &[&str], downloads: isize) -> ModResult {
    ModResult {
        slug: title.to_lowercase(),
        title: title.to_string(),
        description: format!("about {}", title),
        categories: vec![],
        display_categories: vec![],
        client_side: "required".to_string(),
        server_side: "optional".to_string(),
        project_type: "mod".to_string(),
        downloads,
        icon_url: String::new(),
        project_id: format!("id-{}", title),
        author: "someone".to_string(),
        versions: versions.iter().map(|v| v.to_string()).collect(),
        follows: 0,
        date_created: String::new(),
        date_modified: String::new(),
        latest_version: String::new(),
        license: "MIT".to_string(),
        gallery: vec![],
    }
}

fn response(hits: Vec<ModResult>) -> SearchResponse {
    let n = hits.len() as isize;
    SearchResponse { hits, offset: 0, limit: 10, total_hits: n }
}

#[test]
fn forward_listing_pairs_labels_with_hits_in_order() {
    let r = response(vec![hit("A", &["1.19"], 1), hit("B", &[], 2), hit("C", &["1.20"], 3)]);
    let lines = display_search_results(&r, false);
    assert_eq!(
        lines,
        vec![
            " 1 A [1.19] (1 downloads)\n    about A".to_string(),
            " 2 B [no releases]\n    about B".to_string(),
            " 3 C [1.20] (3 downloads)\n    about C".to_string(),
        ]
    );
}

#[test]
fn reverse_listing_labels_by_place_not_by_hit() {
    let r = response(vec![hit("A", &["1.19"], 1), hit("B", &[], 2), hit("C", &["1.20"], 3)]);
    let lines = display_search_results(&r, true);
    assert_eq!(
        lines,
        vec![
            " 1 C [1.20] (3 downloads)\n    about C".to_string(),
            " 2 B [no releases]\n    about B".to_string(),
            " 3 A [1.19] (1 downloads)\n    about A".to_string(),
        ]
    );
}

#[test]
fn empty_listing_has_no_lines() {
    assert!(display_search_results(&response(vec![]), true).is_empty());
}

#[test]
fn no_hits_ends_without_asking() {
    let (mut s, a) = GetSession::start();
    assert_eq!(a, GetAction::Search);
    assert_eq!(s.on_search(0), GetAction::Finish(GetOutcome::NoResults));
    assert_eq!(s.phase, GetPhase::Done);
}

#[test]
fn empty_selection_ends_successfully_without_fetching() {
    let (mut s, _) = GetSession::start();
    assert_eq!(s.on_search(5), GetAction::AskSelection);
    assert_eq!(s.on_selection(""), GetAction::Finish(GetOutcome::NothingSelected));
    assert_eq!(s.phase, GetPhase::Done);
}

#[test]
fn refused_selection_fails_before_any_fetch() {
    let (mut s, _) = GetSession::start();
    s.on_search(5);
    assert_eq!(
        s.on_selection("1 abc"),
        GetAction::Finish(GetOutcome::Failed(GetFailure::Selection(
            SelectionError::InvalidSelectionNumber("abc".to_string())
        )))
    );
}

#[test]
fn project_without_versions_is_passed_over() {
    let (mut s, _) = GetSession::start();
    s.on_search(5);
    assert_eq!(s.on_selection("2 4"), GetAction::FetchProject(1));
    assert_eq!(s.on_project(&vec![]), GetAction::FetchProject(3));
    assert_eq!(s.on_project(&vec![]), GetAction::Finish(GetOutcome::Completed));
}

#[test]
fn chosen_hits_walk_to_their_newest_version_files() {
    let (mut s, _) = GetSession::start();
    s.on_search(3);
    assert_eq!(s.on_selection("3 1"), GetAction::FetchProject(0));
    let versions = vec!["new".to_string(), "old".to_string()];
    assert_eq!(s.on_project(&versions), GetAction::FetchVersion("new".to_string()));
    assert_eq!(s.on_version(2), GetAction::FetchFile(0));
    assert_eq!(s.on_file(DownloadOutcome::Completed(10)), GetAction::FetchFile(1));
    assert_eq!(s.on_file(DownloadOutcome::SkippedByUser), GetAction::FetchProject(2));
    assert_eq!(s.on_project(&versions), GetAction::FetchVersion("new".to_string()));
    assert_eq!(s.on_version(0), GetAction::Finish(GetOutcome::Completed));
}

#[test]
fn failed_file_aborts_the_rest() {
    let (mut s, _) = GetSession::start();
    s.on_search(3);
    s.on_selection("1-3");
    s.on_project(&vec!["v".to_string()]);
    s.on_version(3);
    assert_eq!(
        s.on_file(DownloadOutcome::Failed(DownloadFailure::Io("disk full".to_string()))),
        GetAction::Finish(GetOutcome::Failed(GetFailure::Download(DownloadFailure::Io(
            "disk full".to_string()
        ))))
    );
    assert_eq!(s.phase, GetPhase::Done);
}

#[test]
fn upstream_failure_aborts() {
    let (mut s, _) = GetSession::start();
    s.on_search(3);
    s.on_selection("1");
    let e = RequestError::Upstream(UpstreamError {
        status: 404,
        error: Some(Error { error: "not_found".to_string(), description: "no such project".to_string() }),
    });
    assert_eq!(
        s.on_request_error(e.clone()),
        GetAction::Finish(GetOutcome::Failed(GetFailure::Request(e)))
    );
    assert_eq!(s.phase, GetPhase::Done);
}

#[test]
fn display_order_labels_places() {
    assert_eq!(display_order(3, false), vec![(1, 0), (2, 1), (3, 2)]);
    assert_eq!(display_order(3, true), vec![(1, 2), (2, 1), (3, 0)]);
    assert!(display_order(0, true).is_empty());
}
