use hopper::args::{Loader, PackageType, SearchArgs, Server};
use hopper::client::{UpstreamError, project_url, search_facets, search_params, search_urls, version_url};
use hopper::config::Sources;

fn args(versions: &[&str], t: PackageType) -> SearchArgs {
    SearchArgs {
        no_confirm: false,
        dir: None,
        mc_version: versions.iter().map(|v| v.to_string()).collect(),
        package_type: t,
        package_name: "sodium".to_string(),
    }
}

#[test]
fn no_filters_send_no_facets() {
    let a = args(&[], PackageType::Dummy);
    assert_eq!(search_facets(&a), None);
    assert_eq!(search_params(&a), vec![("query".to_string(), "sodium".to_string())]);
}

#[test]
fn versions_and_type_become_facets() {
    let a = args(&["1.19", "1.20"], PackageType::Mod(Loader::Fabric));
    assert_eq!(
        search_facets(&a).unwrap(),
        "[[\"versions:1.19\"],[\"versions:1.20\"],[\"project_type:mod\"],[\"categories:fabric\"]]"
    );
}

#[test]
fn type_alone_becomes_facets() {
    let a = args(&[], PackageType::Plugin(Server::Paper));
    assert_eq!(
        search_params(&a),
        vec![
            ("query".to_string(), "sodium".to_string()),
            (
                "facets".to_string(),
                "[[\"project_type:mod\"],[\"categories:paper\"]]".to_string()
            ),
        ]
    );
    let a = args(&["1.18"], PackageType::ResourcePack);
    assert_eq!(
        search_facets(&a).unwrap(),
        "[[\"versions:1.18\"],[\"project_type:resourcepack\"]]"
    );
}

#[test]
fn endpoints() {
    let s = Sources { modrinth: vec!["https://api.modrinth.com".to_string(), "http://h".to_string()] };
    assert_eq!(
        search_urls(&s),
        vec!["https://api.modrinth.com/v2/search".to_string(), "http://h/v2/search".to_string()]
    );
    assert_eq!(project_url("http://h", "AANobbMI"), "http://h/v2/project/AANobbMI");
    assert_eq!(version_url("http://h", "x1"), "http://h/v2/version/x1");
}

#[test]
fn upstream_failures_report_the_error_record_or_the_status() {
    let e = hopper::api::Error { error: "not_found".to_string(), description: "gone".to_string() };
    let with_record = UpstreamError { status: 404, error: Some(e.clone()) };
    assert_eq!(with_record.message(), "not_found: gone");
    assert_eq!(with_record.error, Some(e));
    let bare = UpstreamError { status: 502, error: None };
    assert_eq!(bare.message(), "the server answered with status 502");
}
