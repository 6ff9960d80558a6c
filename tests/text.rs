use hopper::api::{compose_hit, compose_info, index_label_text};
use hopper::api::ModResult;
use hopper::text::{concat_str, decimal_text, find_char, join, same_text, signed_decimal_text};

#[test]
fn decimals() {
    assert_eq!(decimal_text(0), "0");
    assert_eq!(decimal_text(7), "7");
    assert_eq!(decimal_text(1234567), "1234567");
    assert_eq!(decimal_text(u64::MAX), "18446744073709551615");
    assert_eq!(signed_decimal_text(-42), "-42");
    assert_eq!(signed_decimal_text(i64::MIN), "-9223372036854775808");
}

#[test]
fn joining_and_searching() {
    assert_eq!(join(&vec!["a".to_string(), "b".to_string(), "c".to_string()], ", "), "a, b, c");
    assert_eq!(join(&vec![], ","), "");
    assert_eq!(concat_str("ab", "cd"), "abcd");
    assert_eq!(find_char("a:b:c", ':'), Some(1));
    assert_eq!(find_char("abc", ':'), None);
    assert!(same_text("x", "x"));
    assert!(!same_text("x", "xy"));
}

#[test]
fn hit_summary_and_label() {
    let h = ModResult {
        slug: "s".to_string(),
        title: "Sodium".to_string(),
        description: "fast".to_string(),
        categories: vec![],
        display_categories: vec![],
        client_side: String::new(),
        server_side: String::new(),
        project_type: String::new(),
        downloads: 1234,
        icon_url: String::new(),
        project_id: String::new(),
        author: String::new(),
        versions: vec!["1.18".to_string(), "1.19".to_string()],
        follows: 0,
        date_created: String::new(),
        date_modified: String::new(),
        latest_version: String::new(),
        license: String::new(),
        gallery: vec![],
    };
    assert_eq!(h.format_info(), "Sodium [1.19] (1234 downloads)");
    assert_eq!(h.format_description(), "fast");
    assert_eq!(h.display(3), " 3 Sodium [1.19] (1234 downloads)\n    fast");
    assert_eq!(h.display(12), "12 Sodium [1.19] (1234 downloads)\n    fast");
}

#[test]
fn composing_from_pieces() {
    assert_eq!(compose_info("T", Some("1.20"), "7"), "T [1.20] (7 downloads)");
    assert_eq!(compose_info("T", None, "7"), "T [no releases]");
    assert_eq!(compose_hit(" 4", "T [no releases]", "d"), " 4 T [no releases]\n    d");
    assert_eq!(index_label_text(4), " 4");
    assert_eq!(index_label_text(123), "123");
}
