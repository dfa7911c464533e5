use aero_client::ApiError;
use aero_client::HeaderMap;
use aero_client::Method;
use aero_client::collect_response;
use aero_client::plan_request;

#[test]
fn unsupported_methods_rejected() {
    for m in ["HEAD", "OPTIONS", "TRACE", "get", "Get", "post", ""] {
        match plan_request(m, String::from("https://example.com"), None, None) {
            Err(ApiError::UnsupportedMethod) => {}
            other => panic!("method {:?} was not rejected: {:?}", m, other),
        }
    }
}

#[test]
fn unsupported_method_message() {
    let e = plan_request("HEAD", String::from("u"), None, None).unwrap_err();
    assert_eq!(e.message(), "Método não suportado");
}

#[test]
fn supported_methods_accepted() {
    let cases = [
        ("GET", Method::Get),
        ("POST", Method::Post),
        ("PUT", Method::Put),
        ("DELETE", Method::Delete),
        ("PATCH", Method::Patch),
    ];
    for (s, m) in cases {
        let p = plan_request(s, String::from("https://example.com"), None, None).unwrap();
        assert_eq!(p.method, m);
        assert_eq!(p.method.name(), s);
    }
}

#[test]
fn url_passes_through_unvalidated() {
    let p = plan_request("GET", String::from("not a url ::: at all"), None, None).unwrap();
    assert_eq!(p.url, "not a url ::: at all");
}

#[test]
fn empty_body_attaches_nothing() {
    let mut h = HeaderMap::new();
    h.insert(String::from("Content-Type"), String::from("text/plain"));
    h.insert(String::from("X-Other"), String::from("1"));
    let p = plan_request("POST", String::from("u"), Some(h), Some(String::new())).unwrap();
    assert!(p.payload.is_none());
    assert!(p.content_type().is_none());
}

#[test]
fn absent_body_attaches_nothing() {
    let p = plan_request("POST", String::from("u"), None, None).unwrap();
    assert!(p.payload.is_none());
    assert!(p.content_type().is_none());
}

#[test]
fn nonempty_body_forces_json_content_type() {
    let mut h = HeaderMap::new();
    h.insert(String::from("Content-Type"), String::from("text/plain"));
    let p = plan_request(
        "POST",
        String::from("u"),
        Some(h),
        Some(String::from("{\"k\":true}")),
    )
    .unwrap();
    assert_eq!(p.payload.as_deref(), Some("{\"k\":true}"));
    assert_eq!(p.content_type(), Some("application/json"));
}

#[test]
fn caller_headers_kept_as_given() {
    let mut h = HeaderMap::new();
    h.insert(String::from("Authorization"), String::from("Bearer t"));
    h.insert(String::from("X-A"), String::from("1"));
    let p = plan_request("GET", String::from("u"), Some(h), None).unwrap();
    assert_eq!(p.headers.get("Authorization").unwrap().as_str(), "Bearer t");
    assert_eq!(p.headers.get("X-A").unwrap().as_str(), "1");
    assert!(p.headers.get("x-a").is_none());
}

#[test]
fn header_keys_case_sensitive_distinct() {
    let mut h = HeaderMap::new();
    h.insert(String::from("X-Test"), String::from("upper"));
    h.insert(String::from("x-test"), String::from("lower"));
    assert_eq!(h.len(), 2);
    assert_eq!(h.get("X-Test").unwrap().as_str(), "upper");
    assert_eq!(h.get("x-test").unwrap().as_str(), "lower");
    assert!(h.get("X-TEST").is_none());
}

#[test]
fn header_last_write_wins() {
    let mut h = HeaderMap::new();
    h.insert(String::from("X-Test"), String::from("first"));
    h.insert(String::from("X-Test"), String::from("second"));
    assert_eq!(h.len(), 1);
    assert_eq!(h.get("X-Test").unwrap().as_str(), "second");
    assert_eq!(h.entry_count(), 1);
    assert_eq!(h.key_at(0).as_str(), "X-Test");
    assert_eq!(h.value_at(0).as_str(), "second");
}

#[test]
fn stub_transport_passes_through_unmodified() {
    let fixture_body = "{\"products\":[{\"id\":1,\"title\":\"iPhone 9\"}],\"total\":1}";
    let raw = vec![
        (
            String::from("content-type"),
            Some(String::from("application/json; charset=utf-8")),
        ),
        (String::from("server"), Some(String::from("stub"))),
    ];
    let r = collect_response(200, raw, Some(String::from(fixture_body)), 17);
    assert_eq!(r.status, 200);
    assert_eq!(r.duration, 17);
    assert_eq!(r.body, fixture_body);
    assert!(r.body.contains("products"));
    assert_eq!(
        r.headers.get("content-type").unwrap().as_str(),
        "application/json; charset=utf-8"
    );
    assert_eq!(r.headers.get("server").unwrap().as_str(), "stub");
}

#[test]
fn response_duplicate_header_keeps_last() {
    let raw = vec![
        (String::from("set-cookie"), Some(String::from("a=1"))),
        (String::from("set-cookie"), Some(String::from("b=2"))),
    ];
    let r = collect_response(200, raw, None, 0);
    assert_eq!(r.headers.len(), 1);
    assert_eq!(r.headers.get("set-cookie").unwrap().as_str(), "b=2");
}

#[test]
fn unreadable_header_value_becomes_empty() {
    let raw = vec![(String::from("x-raw"), None)];
    let r = collect_response(204, raw, None, 1);
    assert_eq!(r.headers.get("x-raw").unwrap().as_str(), "");
}

#[test]
fn invalid_text_body_becomes_empty() {
    let r = collect_response(200, Vec::new(), None, 3);
    assert_eq!(r.body, "");
    assert_eq!(r.headers.len(), 0);
}

#[test]
fn transport_failure_message() {
    let e = ApiError::TransportFailure(String::from("dns error"));
    assert_eq!(e.message(), "Erro: dns error");
}
