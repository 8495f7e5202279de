use std::cell::Cell;

use fetch_ops::error::FetchError;
use fetch_ops::ops::{
    complete_fetch, op_create_http_client, op_fetch, read_response_headers, ClientChoice,
    PreparedFetch,
};
use fetch_ops::registry::{Resource, ResourceTable};
use fetch_ops::request::{build_headers, is_http_scheme, take_body, validate_fetch, FetchArgs};

type Table = ResourceTable<String, Vec<u8>>;

fn args(method: Option<&str>, url: &str, headers: &[(&str, &str)], client_rid: Option<u32>) -> FetchArgs {
    FetchArgs {
        method: method.map(|m| m.to_string()),
        url: url.to_string(),
        headers: headers.iter().map(|(k, v)| (k.to_string(), v.to_string())).collect(),
        client_rid,
    }
}

/// Runs both request steps, asking `gate` about the URL in between, as the
/// host does.
fn prepare(
    a: &FetchArgs,
    chunks: Vec<Vec<u8>>,
    table: &Table,
    gate: &dyn Fn(&url::Url) -> bool,
) -> Result<PreparedFetch, FetchError> {
    let target = validate_fetch(a, chunks)?;
    let permitted = gate(target.url());
    op_fetch(target, permitted, a.client_rid, table)
}

#[test]
fn unsupported_scheme_never_asks_permission() {
    let table = Table::new();
    let calls = Cell::new(0u32);
    let gate = |_: &url::Url| {
        calls.set(calls.get() + 1);
        true
    };
    for u in ["ftp://example.test/a", "file:///etc/hosts", "data:text/plain,hi", "ws://example.test/"] {
        let r = prepare(&args(None, u, &[], None), vec![], &table, &gate);
        assert_eq!(r.err(), Some(FetchError::UnsupportedScheme));
    }
    assert_eq!(calls.get(), 0);
}

#[test]
fn http_and_https_are_accepted_under_permissive_policy() {
    let mut table = Table::new();
    let calls = Cell::new(0u32);
    let gate = |_: &url::Url| {
        calls.set(calls.get() + 1);
        true
    };
    let mut seen = Vec::new();
    for u in ["http://example.test/", "https://example.test/a?b=c", "HTTPS://EXAMPLE.TEST:8443/x"] {
        let p = prepare(&args(None, u, &[], None), vec![], &table, &gate).ok().unwrap();
        assert_eq!(p.client, ClientChoice::Default);
        assert_eq!(p.method, http::Method::GET);
        assert!(p.body.is_none());
        let res = complete_fetch(&mut table, 200, vec![], vec![1u8]).ok().unwrap();
        assert!(!seen.contains(&res.body_rid));
        seen.push(res.body_rid);
    }
    assert_eq!(calls.get(), 3);
}

#[test]
fn concurrent_fetches_get_distinct_handles_in_any_completion_order() {
    let mut table = Table::new();
    let urls: Vec<String> = (0..8).map(|i| format!("https://host{}.test/", i)).collect();
    let mut prepared = Vec::new();
    for u in &urls {
        let a = args(Some("POST"), u, &[("content-type", "text/plain")], None);
        prepared.push(prepare(&a, vec![b"x".to_vec()], &table, &|_| true).ok().unwrap());
    }
    // complete them out of issue order
    let order = [5usize, 0, 7, 2, 1, 6, 3, 4];
    let mut rids = Vec::new();
    for &i in &order {
        let body = urls[i].as_bytes().to_vec();
        let res = complete_fetch(&mut table, 200, vec![], body).ok().unwrap();
        rids.push((i, res.body_rid));
    }
    for a in 0..rids.len() {
        for b in (a + 1)..rids.len() {
            assert_ne!(rids[a].1, rids[b].1);
        }
    }
    for (i, rid) in rids {
        assert_eq!(table.get_body(rid).unwrap(), &urls[i].as_bytes().to_vec());
    }
    assert_eq!(prepared.len(), 8);
}

#[test]
fn body_handle_as_client_is_invalid_handle() {
    let mut table = Table::new();
    let res = complete_fetch(&mut table, 200, vec![], b"data".to_vec()).ok().unwrap();
    let a = args(None, "https://example.test/", &[], Some(res.body_rid));
    let r = prepare(&a, vec![], &table, &|_| true);
    assert_eq!(r.err(), Some(FetchError::InvalidHandle));
    let missing = args(None, "https://example.test/", &[], Some(999));
    assert_eq!(prepare(&missing, vec![], &table, &|_| true).err(), Some(FetchError::InvalidHandle));
}

#[test]
fn registered_client_handle_is_used() {
    let mut table = Table::new();
    let rid = op_create_http_client(&mut table, &None, true, Some("client".to_string())).unwrap();
    let a = args(Some("PUT"), "http://example.test/", &[], Some(rid));
    let p = prepare(&a, vec![], &table, &|_| true).ok().unwrap();
    assert_eq!(p.client, ClientChoice::Handle(rid));
    assert_eq!(p.method, http::Method::PUT);
    assert_eq!(table.get_client(rid).unwrap(), "client");
    assert!(table.get_body(rid).is_none());
}

#[test]
fn denied_ca_file_registers_no_client() {
    let mut table = Table::new();
    let ca = Some("/no/such/ca.pem".to_string());
    let r = op_create_http_client(&mut table, &ca, false, None);
    assert_eq!(r, Err(FetchError::PermissionDenied));
    assert!(!table.contains(0));
    // the next handle is still the first one
    let rid = op_create_http_client(&mut table, &None, false, Some("c".to_string())).unwrap();
    assert_eq!(rid, 0);
}

#[test]
fn unbuildable_client_is_configuration_error() {
    let mut table = Table::new();
    let ca = Some("ca.pem".to_string());
    assert_eq!(op_create_http_client(&mut table, &ca, true, None), Err(FetchError::ConfigurationError));
    assert!(!table.contains(0));
}

#[test]
fn denied_host_fails_before_the_handle_is_looked_up() {
    let table = Table::new();
    let asked = Cell::new(Vec::new());
    let gate = |u: &url::Url| {
        let mut v = asked.take();
        v.push(u.host_str().unwrap_or("").to_string());
        asked.set(v);
        false
    };
    // a handle that names nothing loses to the denial
    let a = args(None, "https://denied.test/x", &[("accept", "*/*")], Some(42));
    let r = prepare(&a, vec![b"x".to_vec()], &table, &gate);
    assert_eq!(r.err(), Some(FetchError::PermissionDenied));
    assert_eq!(asked.take(), vec!["denied.test".to_string()]);
}

#[test]
fn malformed_request_never_reaches_the_policy() {
    let table = Table::new();
    let calls = Cell::new(0u32);
    let gate = |_: &url::Url| {
        calls.set(calls.get() + 1);
        false
    };
    let bad_header = args(None, "https://denied.test/x", &[("bad name", "v")], Some(42));
    assert_eq!(prepare(&bad_header, vec![], &table, &gate).err(), Some(FetchError::MalformedHeader));
    let ok_headers = args(None, "https://denied.test/x", &[], None);
    let r = prepare(&ok_headers, vec![vec![1], vec![2]], &table, &gate);
    assert_eq!(r.err(), Some(FetchError::MalformedInput));
    let bad_method = args(Some("GE T"), "https://denied.test/x", &[], None);
    assert_eq!(prepare(&bad_method, vec![], &table, &gate).err(), Some(FetchError::MalformedInput));
    assert_eq!(calls.get(), 0);
}

#[test]
fn not_found_response_is_a_result_with_readable_body() {
    let mut table = Table::new();
    let a = args(None, "https://example.test/a", &[], None);
    let p = prepare(&a, vec![], &table, &|_| true).ok().unwrap();
    assert_eq!(p.url.as_str(), "https://example.test/a");
    let raw = vec![
        ("content-type".to_string(), b"text/plain".to_vec()),
        ("content-length".to_string(), b"4".to_vec()),
    ];
    let res = complete_fetch(&mut table, 404, raw, b"nope".to_vec()).ok().unwrap();
    assert_eq!(res.status, 404);
    assert_eq!(res.status_text, "Not Found");
    assert_eq!(
        res.headers,
        vec![
            ("content-type".to_string(), "text/plain".to_string()),
            ("content-length".to_string(), "4".to_string()),
        ]
    );
    assert_eq!(table.get_body(res.body_rid).unwrap(), &b"nope".to_vec());
}

#[test]
fn unknown_status_has_empty_reason() {
    let mut table = Table::new();
    let res = complete_fetch(&mut table, 599, vec![], vec![]).ok().unwrap();
    assert_eq!(res.status_text, "");
    let res = complete_fetch(&mut table, 500, vec![], vec![]).ok().unwrap();
    assert_eq!(res.status_text, "Internal Server Error");
}

#[test]
fn bad_method_and_bad_url_are_malformed_input() {
    let bad_method = args(Some("GE T"), "https://example.test/", &[], None);
    assert_eq!(validate_fetch(&bad_method, vec![]).err(), Some(FetchError::MalformedInput));
    let empty_method = args(Some(""), "https://example.test/", &[], None);
    assert_eq!(validate_fetch(&empty_method, vec![]).err(), Some(FetchError::MalformedInput));
    let bad_url = args(None, "not a url", &[], None);
    assert_eq!(validate_fetch(&bad_url, vec![]).err(), Some(FetchError::MalformedInput));
    let relative = args(None, "/relative/path", &[], None);
    assert_eq!(validate_fetch(&relative, vec![]).err(), Some(FetchError::MalformedInput));
    let custom = args(Some("PROPFIND"), "http://example.test/", &[], None);
    assert_eq!(validate_fetch(&custom, vec![]).ok().unwrap().method().as_str(), "PROPFIND");
}

#[test]
fn body_chunk_count() {
    assert_eq!(take_body(vec![]), Ok(None));
    assert_eq!(take_body(vec![b"abc".to_vec()]), Ok(Some(b"abc".to_vec())));
    assert_eq!(take_body(vec![vec![1], vec![2]]), Err(FetchError::MalformedInput));
    let table = Table::new();
    let a = args(Some("POST"), "https://example.test/", &[], None);
    let p = prepare(&a, vec![b"payload".to_vec()], &table, &|_| true).ok().unwrap();
    assert_eq!(p.body, Some(b"payload".to_vec()));
    let r = prepare(&a, vec![vec![1], vec![2]], &table, &|_| true);
    assert_eq!(r.err(), Some(FetchError::MalformedInput));
}

#[test]
fn malformed_headers_are_reported() {
    let pairs = |h: &[(&str, &str)]| -> Vec<(String, String)> {
        h.iter().map(|(k, v)| (k.to_string(), v.to_string())).collect()
    };
    assert_eq!(build_headers(&pairs(&[("bad name", "v")])).err(), Some(FetchError::MalformedHeader));
    assert_eq!(build_headers(&pairs(&[("", "v")])).err(), Some(FetchError::MalformedHeader));
    assert_eq!(build_headers(&pairs(&[("x-a", "line\nbreak")])).err(), Some(FetchError::MalformedHeader));
    assert_eq!(build_headers(&pairs(&[("x-a", "del\u{7f}")])).err(), Some(FetchError::MalformedHeader));
    let ok = build_headers(&pairs(&[("X-Custom", "a\tb"), ("accept", "*/*"), ("x-u", "caf\u{e9}")])).unwrap();
    assert_eq!(ok.len(), 3);
    assert_eq!(ok[0].0.as_str(), "x-custom");
    assert_eq!(ok[0].1.as_bytes(), b"a\tb");
    let table = Table::new();
    let a = args(None, "https://example.test/", &[("ok", "1"), ("no:colon", "2")], None);
    assert_eq!(prepare(&a, vec![], &table, &|_| true).err(), Some(FetchError::MalformedHeader));
}

#[test]
fn response_header_that_is_not_text_fails_and_registers_nothing() {
    let mut table = Table::new();
    let raw = vec![("x-bin".to_string(), vec![b'a', 0xff])];
    assert_eq!(read_response_headers(raw.clone()), None);
    let r = complete_fetch(&mut table, 200, raw, vec![]);
    assert_eq!(r.err(), Some(FetchError::NetworkError));
    assert!(!table.contains(0));
    let fine = read_response_headers(vec![("x".to_string(), b"a b\tc".to_vec())]).unwrap();
    assert_eq!(fine, vec![("x".to_string(), "a b\tc".to_string())]);
}

#[test]
fn scheme_check_is_exact() {
    assert!(is_http_scheme("http"));
    assert!(is_http_scheme("https"));
    assert!(!is_http_scheme("httpx"));
    assert!(!is_http_scheme("htt"));
    assert!(!is_http_scheme("ftp"));
    assert!(!is_http_scheme(""));
}

#[test]
fn removed_handle_is_not_reused() {
    let mut table = Table::new();
    let a = table.add(Resource::HttpBody(vec![1]));
    assert!(table.remove(a).is_some());
    assert!(table.remove(a).is_none());
    let b = table.add(Resource::HttpBody(vec![2]));
    assert_ne!(a, b);
    assert!(table.can_add());
}
