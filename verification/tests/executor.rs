use mockplane::errors::CoreError;
use mockplane::executor::FormDataItem;
use mockplane::executor::FormPart;
use mockplane::executor::HttpRequestArgs;
use mockplane::executor::RequestPayload;
use mockplane::executor::build_response;
use mockplane::executor::file_name_for;
use mockplane::executor::prepare_request;

fn args(method: &str) -> HttpRequestArgs {
    HttpRequestArgs {
        method: method.to_string(),
        url: "http://localhost:9321/ping".to_string(),
        headers: vec![("Accept".to_string(), "text/plain".to_string())],
        body: None,
        form_data: None,
    }
}

#[test]
fn method_is_validated_and_upper_cased() {
    let p = prepare_request(args("get")).unwrap();
    assert_eq!(p.method, "GET");
    assert_eq!(p.url, "http://localhost:9321/ping");
    assert_eq!(p.headers, vec![("Accept".to_string(), "text/plain".to_string())]);
    assert!(matches!(p.payload, RequestPayload::Empty));
    assert_eq!(prepare_request(args("patch")).unwrap().method, "PATCH");
}

#[test]
fn an_unparsable_method_is_refused() {
    let e = prepare_request(args("ge t")).unwrap_err();
    assert!(matches!(&e, CoreError::InvalidMethod { method } if method.as_str() == "ge t"));
    assert_eq!(e.message(), "invalid method: ge t");
    assert!(prepare_request(args("")).is_err());
    assert!(prepare_request(args("G\u{00e9}T")).is_err());
}

#[test]
fn a_raw_body_is_carried_verbatim() {
    let mut a = args("POST");
    a.body = Some("payload".to_string());
    let p = prepare_request(a).unwrap();
    assert!(matches!(p.payload, RequestPayload::Raw { body } if body.as_str() == "payload"));
}

#[test]
fn form_data_takes_precedence_over_a_raw_body() {
    let mut a = args("POST");
    a.body = Some("ignored".to_string());
    a.form_data = Some(vec![FormDataItem {
        key: "note".to_string(),
        value: "hello".to_string(),
        entry_type: "text".to_string(),
    }]);
    let p = prepare_request(a).unwrap();
    match p.payload {
        RequestPayload::Form { parts } => {
            assert_eq!(parts.len(), 1);
            assert!(
                matches!(&parts[0], FormPart::Text { key, text } if key.as_str() == "note" && text.as_str() == "hello")
            );
        }
        _ => panic!("expected a form payload"),
    }
}

#[test]
fn file_entries_become_file_parts_with_their_filename() {
    let mut a = args("POST");
    a.form_data = Some(vec![
        FormDataItem {
            key: "upload".to_string(),
            value: "/tmp/data/report.txt".to_string(),
            entry_type: "file".to_string(),
        },
        FormDataItem {
            key: "note".to_string(),
            value: "inline".to_string(),
            entry_type: "text".to_string(),
        },
    ]);
    let p = prepare_request(a).unwrap();
    match p.payload {
        RequestPayload::Form { parts } => {
            assert_eq!(parts.len(), 2);
            match &parts[0] {
                FormPart::File { key, path, filename } => {
                    assert_eq!(key, "upload");
                    assert_eq!(path, "/tmp/data/report.txt");
                    assert_eq!(filename, "report.txt");
                }
                _ => panic!("expected a file part"),
            }
        }
        _ => panic!("expected a form payload"),
    }
}

#[test]
fn filenames_come_from_the_last_path_segment() {
    assert_eq!(file_name_for("report.txt"), "report.txt");
    assert_eq!(file_name_for("/tmp/report.txt"), "report.txt");
    assert_eq!(file_name_for("dir/"), "");
    assert_eq!(file_name_for("dir/.."), "");
    assert_eq!(file_name_for("dir/."), "");
    assert_eq!(file_name_for(""), "");
}

#[test]
fn response_headers_collect_last_write_wins() {
    let r = build_response(
        200,
        vec![
            ("set-cookie".to_string(), "a=1".to_string()),
            ("content-type".to_string(), "text/plain".to_string()),
            ("set-cookie".to_string(), "b=2".to_string()),
        ],
        "ok".to_string(),
    );
    assert_eq!(r.status, 200);
    assert_eq!(r.body, "ok");
    assert_eq!(r.headers.len(), 2);
    let cookie = r.headers.iter().find(|p| p.0 == "set-cookie").unwrap();
    assert_eq!(cookie.1, "b=2");
    let ct = r.headers.iter().find(|p| p.0 == "content-type").unwrap();
    assert_eq!(ct.1, "text/plain");
}

#[test]
fn file_read_failures_name_the_offending_path() {
    let e = CoreError::FileReadError {
        path: "/tmp/missing.bin".to_string(),
        detail: "no such file".to_string(),
    };
    assert_eq!(e.message(), "failed to read file /tmp/missing.bin: no such file");
}
