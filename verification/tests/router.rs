use mockplane::http::HttpResponse;
use mockplane::router::MockRequestDefinition;
use mockplane::router::ResponseDefinition;
use mockplane::router::normalize_path;
use mockplane::router::respond;
use mockplane::router::strip_query;

fn rule(method: &str, path: &str, status: u16, body: &str) -> MockRequestDefinition {
    MockRequestDefinition {
        method: method.to_string(),
        path: path.to_string(),
        response: ResponseDefinition {
            status,
            headers: Vec::new(),
            body: body.to_string(),
        },
    }
}

fn rule_with_headers(
    method: &str,
    path: &str,
    status: u16,
    headers: Vec<(String, String)>,
    body: &str,
) -> MockRequestDefinition {
    MockRequestDefinition {
        method: method.to_string(),
        path: path.to_string(),
        response: ResponseDefinition {
            status,
            headers,
            body: body.to_string(),
        },
    }
}

fn check(r: &HttpResponse, status: u16, body: &str) {
    assert_eq!(r.status, status);
    assert_eq!(r.body, body);
}

#[test]
fn ping_collection_serves_exact_generic_and_not_found() {
    let rules = vec![rule("GET", "/ping", 200, "pong")];
    check(&respond(&rules, "GET", "/ping"), 200, "pong");
    check(&respond(&rules, "GET", "/ping?x=1"), 200, "pong");
    let miss = respond(&rules, "GET", "/other");
    check(&miss, 404, "");
    assert!(miss.headers.is_empty());
}

#[test]
fn exact_rule_beats_generic_rule() {
    let rules = vec![
        rule("GET", "/search?q=cat", 200, "cats"),
        rule("GET", "/search", 200, "generic"),
    ];
    check(&respond(&rules, "GET", "/search?q=cat"), 200, "cats");
    check(&respond(&rules, "GET", "/search?q=dog"), 200, "generic");
}

#[test]
fn exact_rule_wins_even_when_declared_later() {
    let rules = vec![
        rule("GET", "/search", 200, "generic"),
        rule("GET", "/search?q=cat", 200, "cats"),
    ];
    check(&respond(&rules, "GET", "/search?q=cat"), 200, "cats");
}

#[test]
fn first_exact_match_in_order_wins() {
    let rules = vec![
        rule("GET", "/a", 201, "first"),
        rule("GET", "/a", 202, "second"),
    ];
    check(&respond(&rules, "GET", "/a"), 201, "first");
}

#[test]
fn method_comparison_ignores_ascii_case() {
    let rules = vec![rule("get", "/ping", 200, "pong")];
    check(&respond(&rules, "GET", "/ping"), 200, "pong");
    check(&respond(&rules, "gEt", "/ping"), 200, "pong");
    check(&respond(&rules, "POST", "/ping"), 404, "");
}

#[test]
fn rule_path_without_leading_slash_is_normalized() {
    let rules = vec![rule("GET", "ping", 200, "pong")];
    check(&respond(&rules, "GET", "/ping"), 200, "pong");
    assert_eq!(normalize_path("ping"), "/ping");
    assert_eq!(normalize_path("/ping"), "/ping");
    assert_eq!(normalize_path(""), "/");
}

#[test]
fn query_bearing_rule_never_matches_generically() {
    let rules = vec![rule("GET", "/search?q=cat", 200, "cats")];
    check(&respond(&rules, "GET", "/search?q=dog"), 404, "");
    check(&respond(&rules, "GET", "/search"), 404, "");
}

#[test]
fn strip_query_keeps_path_before_first_marker() {
    assert_eq!(strip_query("/a/b?x=1&y=2"), "/a/b");
    assert_eq!(strip_query("/a/b"), "/a/b");
    assert_eq!(strip_query("?x=1"), "");
    assert_eq!(strip_query("/p??q"), "/p");
}

#[test]
fn invalid_status_falls_back_to_200() {
    let rules = vec![rule("GET", "/weird", 9999, "x"), rule("GET", "/low", 42, "y")];
    check(&respond(&rules, "GET", "/weird"), 200, "x");
    check(&respond(&rules, "GET", "/low"), 200, "y");
    let rules = vec![rule("GET", "/teapot", 418, "short and stout")];
    check(&respond(&rules, "GET", "/teapot"), 418, "short and stout");
}

#[test]
fn unencodable_headers_are_skipped() {
    let headers = vec![
        ("Content-Type".to_string(), "text/plain".to_string()),
        ("Bad Name".to_string(), "v".to_string()),
        ("X-Ok".to_string(), "line\nbreak".to_string()),
        ("".to_string(), "empty".to_string()),
        ("X-Kept".to_string(), "fine value".to_string()),
    ];
    let rules = vec![rule_with_headers("GET", "/h", 200, headers, "body")];
    let r = respond(&rules, "GET", "/h");
    assert_eq!(
        r.headers,
        vec![
            ("Content-Type".to_string(), "text/plain".to_string()),
            ("X-Kept".to_string(), "fine value".to_string()),
        ]
    );
}
