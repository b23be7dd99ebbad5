use mockplane::errors::CoreError;
use mockplane::http::str_eq_ci;
use mockplane::http::to_upper;
use mockplane::logging::log_payload;
use mockplane::store::StrMap;
use mockplane::vcs::StatusFlags;
use mockplane::vcs::file_status_of;
use mockplane::vcs::status_label;

fn flags(
    index_new: bool,
    wt_new: bool,
    index_modified: bool,
    wt_modified: bool,
    index_deleted: bool,
    wt_deleted: bool,
) -> StatusFlags {
    StatusFlags { index_new, wt_new, index_modified, wt_modified, index_deleted, wt_deleted }
}

#[test]
fn status_flags_classify_in_priority_order() {
    assert_eq!(status_label(&flags(true, false, false, false, false, false)), "New");
    assert_eq!(status_label(&flags(false, true, false, false, false, false)), "New");
    assert_eq!(status_label(&flags(false, false, true, false, false, false)), "Modified");
    assert_eq!(status_label(&flags(false, false, false, true, false, false)), "Modified");
    assert_eq!(status_label(&flags(false, false, false, false, true, false)), "Deleted");
    assert_eq!(status_label(&flags(false, false, false, false, false, true)), "Deleted");
    assert_eq!(status_label(&flags(false, false, false, false, false, false)), "Unknown");
    assert_eq!(status_label(&flags(true, false, true, false, true, false)), "New");
    assert_eq!(status_label(&flags(false, false, true, false, true, false)), "Modified");
}

#[test]
fn file_status_keeps_the_path() {
    let s = file_status_of("src/main.rs".to_string(), &flags(false, true, false, false, false, false));
    assert_eq!(s.path, "src/main.rs");
    assert_eq!(s.status, "New");
}

#[test]
fn log_payload_carries_level_and_message() {
    let p = log_payload("warn", "port already bound");
    assert_eq!(p.level, "warn");
    assert_eq!(p.message, "port already bound");
}

#[test]
fn case_insensitive_comparison_folds_ascii_only() {
    assert!(str_eq_ci("GeT", "get"));
    assert!(str_eq_ci("", ""));
    assert!(!str_eq_ci("GET", "GETS"));
    assert!(!str_eq_ci("GET", "PUT"));
    assert!(str_eq_ci("a\u{00e9}Z", "A\u{00e9}z"));
    assert!(!str_eq_ci("\u{00e9}", "\u{00c9}"));
}

#[test]
fn upper_casing_folds_ascii_only() {
    assert_eq!(to_upper("get"), "GET");
    assert_eq!(to_upper("Get-7~x"), "GET-7~X");
    assert_eq!(to_upper("d\u{00e9}j\u{00e0}"), "D\u{00e9}J\u{00e0}");
}

#[test]
fn str_map_binds_each_key_once() {
    let mut m: StrMap<u64> = StrMap::new();
    assert!(!m.contains_key(&"a".to_string()));
    m.insert("a".to_string(), 1);
    m.insert("b".to_string(), 2);
    m.insert("a".to_string(), 3);
    assert_eq!(m.get(&"a".to_string()), Some(&3));
    assert_eq!(m.get(&"b".to_string()), Some(&2));
    assert_eq!(m.remove(&"a".to_string()), Some(3));
    assert_eq!(m.remove(&"a".to_string()), None);
    assert!(m.contains_key(&"b".to_string()));
}

#[test]
fn every_error_variant_renders_its_message() {
    let bind = CoreError::BindError { port: 9321, detail: "address in use".to_string() };
    assert_eq!(bind.message(), "failed to bind listener: address in use");
    let enc = CoreError::EncodingError { header: "Bad Name".to_string() };
    assert_eq!(enc.message(), "header cannot be encoded: Bad Name");
    let transport = CoreError::TransportError { detail: "dns error".to_string() };
    assert_eq!(transport.message(), "request failed: dns error");
}
