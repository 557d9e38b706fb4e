use aarambh_net::header::{HeaderMap, HeaderName, HeaderValue, ACCEPT, AUTHORIZATION, USER_AGENT};
use aarambh_net::http::{HttpError, Method, Request, SURE_ROOM};
use aarambh_net::HttpClient;

fn value(text: &'static str) -> HeaderValue {
    HeaderValue::from_static(text)
}

fn setup_client() -> HttpClient {
    let base_url = "https://httpbin.org";
    HttpClient::new(base_url, None).unwrap()
}

fn defaults() -> HeaderMap {
    let mut headers = HeaderMap::new();
    headers.insert(USER_AGENT, value("aarambh/1"));
    headers.insert(ACCEPT, value("text/plain"));
    headers.append(ACCEPT, value("text/html"));
    headers
}

fn all(headers: &HeaderMap, name: &HeaderName) -> Vec<String> {
    headers.get_all(name).iter().map(|v| v.to_str().unwrap().to_string()).collect()
}

#[test]
fn test_get_request() {
    let client = setup_client();
    let endpoint = "/get";
    match client.get(endpoint, None) {
        Ok(request) => {
            assert_eq!(request.method, Method::Get);
            assert_eq!(request.url, "https://httpbin.org/get");
            assert!(request.headers.is_empty());
            assert_eq!(request.body, None);
        }
        Err(e) => panic!("GET request failed: {:?}", e),
    }
}

#[test]
fn the_base_url_is_kept_as_the_parser_writes_it() {
    assert_eq!(setup_client().base_url(), "https://httpbin.org/");
    let client = HttpClient::new("HTTP://Example.COM:80/a/../b?q#f", None).unwrap();
    assert_eq!(client.base_url(), "http://example.com/b?q#f");
}

#[test]
fn a_base_url_must_be_a_url() {
    for bad in ["", "not a url", "/relative/path", "http://", "://missing.scheme"] {
        assert!(matches!(HttpClient::new(bad, None), Err(HttpError::InvalidUrl)), "{:?}", bad);
    }
}

#[test]
fn endpoints_are_joined_to_the_base() {
    let client = HttpClient::new("https://api.example.com/v1/", None).unwrap();
    let url = |endpoint: &str| client.get(endpoint, None).unwrap().url;
    assert_eq!(url("users"), "https://api.example.com/v1/users");
    assert_eq!(url("/users"), "https://api.example.com/users");
    assert_eq!(url("users?id=7"), "https://api.example.com/v1/users?id=7");
    assert_eq!(url("../up"), "https://api.example.com/up");
    assert_eq!(url(""), "https://api.example.com/v1/");
    assert_eq!(url("https://other.example/x"), "https://other.example/x");
    assert_eq!(url("a b"), "https://api.example.com/v1/a%20b");
}

#[test]
fn an_endpoint_that_cannot_be_joined_is_an_error() {
    let client = setup_client();
    assert!(matches!(client.get("https://[bad", None), Err(HttpError::InvalidUrl)));
    assert!(matches!(client.post("http://:80:80/", None, Some("x")), Err(HttpError::InvalidUrl)));
    let opaque = HttpClient::new("mailto:someone@example.com", None).unwrap();
    assert!(matches!(opaque.get("/get", Some(defaults())), Err(HttpError::InvalidUrl)));
}

#[test]
fn each_call_has_its_method() {
    let client = setup_client();
    let method = |request: Result<Request, HttpError>| request.unwrap().method;
    assert_eq!(method(client.get("/x", None)), Method::Get);
    assert_eq!(method(client.post("/x", None, None)), Method::Post);
    assert_eq!(method(client.put("/x", None, None)), Method::Put);
    assert_eq!(method(client.delete("/x", None)), Method::Delete);
    assert_eq!(method(client.head("/x", None)), Method::Head);
    assert_eq!(method(client.patch("/x", None, None)), Method::Patch);
    assert_eq!(method(client.request(Method::Put, "/x", None, None)), Method::Put);
}

#[test]
fn a_body_is_carried_where_the_method_takes_one() {
    let client = setup_client();
    let body = |request: Result<Request, HttpError>| request.unwrap().body;
    assert_eq!(body(client.post("/post", None, Some("{\"a\":1}"))), Some("{\"a\":1}".to_string()));
    assert_eq!(body(client.put("/put", None, Some("data"))), Some("data".to_string()));
    assert_eq!(body(client.patch("/patch", None, Some(""))), Some(String::new()));
    assert_eq!(body(client.post("/post", None, None)), None);
    assert_eq!(body(client.put("/put", None, None)), None);
    assert_eq!(body(client.patch("/patch", None, None)), None);
    assert_eq!(body(client.get("/get", None)), None);
    assert_eq!(body(client.delete("/delete", None)), None);
    assert_eq!(body(client.head("/head", None)), None);
    for request in [
        client.post("/anything", None, Some("payload")).unwrap(),
        client.put("/anything", None, Some("payload")).unwrap(),
        client.patch("/anything", None, Some("payload")).unwrap(),
    ] {
        assert_eq!(request.url, "https://httpbin.org/anything");
        assert_eq!(request.body.as_deref(), Some("payload"));
    }
}

#[test]
fn without_extras_the_defaults_are_sent() {
    let client = HttpClient::new("https://httpbin.org", Some(defaults())).unwrap();
    let merged = client.merge_headers(None).unwrap();
    assert_eq!(merged, defaults());
    assert_eq!(merged.len(), 3);
    let merged = client.merge_headers(Some(HeaderMap::new())).unwrap();
    assert_eq!(merged, defaults());
}

#[test]
fn without_defaults_the_extras_are_sent() {
    let client = setup_client();
    assert!(client.merge_headers(None).unwrap().is_empty());
    let mut extras = HeaderMap::new();
    extras.insert(ACCEPT, value("application/json"));
    let merged = client.merge_headers(Some(extras.clone())).unwrap();
    assert_eq!(merged, extras);
}

#[test]
fn extras_override_defaults() {
    let client = HttpClient::new("https://httpbin.org", Some(defaults())).unwrap();
    let mut extras = HeaderMap::new();
    extras.insert(ACCEPT, value("application/json"));
    extras.insert(AUTHORIZATION, value("Bearer token"));
    let merged = client.merge_headers(Some(extras)).unwrap();
    assert_eq!(all(&merged, &ACCEPT), vec!["application/json"]);
    assert_eq!(all(&merged, &AUTHORIZATION), vec!["Bearer token"]);
    assert_eq!(all(&merged, &USER_AGENT), vec!["aarambh/1"]);
    assert_eq!(merged.len(), 3);
    assert_eq!(merged.keys_len(), 3);
}

#[test]
fn of_several_extra_values_the_last_one_stays() {
    let client = HttpClient::new("https://httpbin.org", Some(defaults())).unwrap();
    let mut extras = HeaderMap::new();
    extras.append(ACCEPT, value("first"));
    extras.append(ACCEPT, value("second"));
    extras.append(ACCEPT, value("third"));
    let merged = client.merge_headers(Some(extras)).unwrap();
    assert_eq!(all(&merged, &ACCEPT), vec!["third"]);
    assert_eq!(all(&merged, &USER_AGENT), vec!["aarambh/1"]);
}

#[test]
fn names_of_one_s_own_and_marks_are_kept() {
    let custom = HeaderName::from_static("x-request-id");
    let mut secret = value("hunter2");
    secret.set_sensitive(true);
    let mut extras = HeaderMap::new();
    extras.insert(custom.clone(), value("42"));
    extras.insert(AUTHORIZATION, secret);
    let client = HttpClient::new("https://httpbin.org", Some(defaults())).unwrap();
    let merged = client.merge_headers(Some(extras)).unwrap();
    assert_eq!(all(&merged, &custom), vec!["42"]);
    assert!(merged.get(AUTHORIZATION).unwrap().is_sensitive());
    assert!(!merged.get(&custom).unwrap().is_sensitive());
    assert!(!merged.get(USER_AGENT).unwrap().is_sensitive());
}

#[test]
fn values_that_are_no_text_are_carried_as_they_are() {
    let raw = HeaderValue::from_bytes(b"\xfa\xfb tab\there").unwrap();
    let mut extras = HeaderMap::new();
    extras.insert(ACCEPT, raw.clone());
    let merged = setup_client().merge_headers(Some(extras)).unwrap();
    assert_eq!(merged.get(ACCEPT), Some(&raw));
    assert_eq!(merged.get(ACCEPT).unwrap().as_bytes(), b"\xfa\xfb tab\there");
}

#[test]
fn the_defaults_are_not_changed_by_a_call() {
    let client = HttpClient::new("https://httpbin.org", Some(defaults())).unwrap();
    let mut extras = HeaderMap::new();
    extras.insert(ACCEPT, value("application/json"));
    let first = client.get("/get", Some(extras)).unwrap();
    assert_eq!(all(&first.headers, &ACCEPT), vec!["application/json"]);
    let second = client.get("/get", None).unwrap();
    assert_eq!(second.headers, defaults());
    assert_eq!(all(&second.headers, &ACCEPT), vec!["text/plain", "text/html"]);
}

#[test]
fn a_request_carries_the_merged_headers() {
    let client = HttpClient::new("https://httpbin.org", Some(defaults())).unwrap();
    let mut extras = HeaderMap::new();
    extras.insert(USER_AGENT, value("override/2"));
    let request = client.post("/post", Some(extras), Some("body")).unwrap();
    assert_eq!(request.method, Method::Post);
    assert_eq!(request.url, "https://httpbin.org/post");
    assert_eq!(all(&request.headers, &USER_AGENT), vec!["override/2"]);
    assert_eq!(all(&request.headers, &ACCEPT), vec!["text/plain", "text/html"]);
    assert_eq!(request.body.as_deref(), Some("body"));
}

#[test]
fn the_example_of_two_defaults_and_one_extra() {
    let x_a = HeaderName::from_static("x-a");
    let mut base = HeaderMap::new();
    base.insert(ACCEPT, value("text/plain"));
    base.insert(x_a.clone(), value("1"));
    let mut extras = HeaderMap::new();
    extras.insert(ACCEPT, value("application/json"));
    let client = HttpClient::new("https://httpbin.org", Some(base)).unwrap();
    let merged = client.merge_headers(Some(extras)).unwrap();
    let mut expected = HeaderMap::new();
    expected.insert(ACCEPT, value("application/json"));
    expected.insert(x_a, value("1"));
    assert_eq!(merged, expected);
    assert_eq!(merged.len(), 2);
}

fn numbered(prefix: &str, from: usize, to: usize) -> HeaderMap {
    let mut headers = HeaderMap::new();
    for i in from..to {
        let name = HeaderName::from_bytes(format!("{}-{}", prefix, i).as_bytes()).unwrap();
        headers.insert(name, HeaderValue::from_str(&i.to_string()).unwrap());
    }
    headers
}

#[test]
fn a_merge_that_fills_the_sure_room_succeeds() {
    assert_eq!(SURE_ROOM, 6553);
    let base = numbered("x-default", 0, 6000);
    let extras = numbered("x-extra", 0, 553);
    assert_eq!(base.len() + extras.len(), SURE_ROOM);
    let client = HttpClient::new("https://httpbin.org", Some(base)).unwrap();
    let merged = client.merge_headers(Some(extras)).unwrap();
    assert_eq!(merged.len(), SURE_ROOM);
    assert_eq!(merged.get("x-default-5999").unwrap(), "5999");
    assert_eq!(merged.get("x-extra-552").unwrap(), "552");
}

#[test]
fn a_merge_into_a_table_of_the_largest_size_succeeds() {
    let mut base = HeaderMap::with_capacity(24576);
    for (name, value) in numbered("x-default", 0, 6000).iter() {
        base.insert(name.clone(), value.clone());
    }
    let extras = numbered("x-extra", 0, 553);
    let client = HttpClient::new("https://httpbin.org", Some(base)).unwrap();
    let request = client.post("/post", Some(extras), Some("body")).unwrap();
    assert_eq!(request.headers.len(), SURE_ROOM);
    assert_eq!(request.method, Method::Post);
}

#[test]
fn extras_that_only_replace_are_merged_into_a_large_map() {
    let base = numbered("x-shared", 0, 3276);
    let mut extras = HeaderMap::new();
    for i in 0..3276 {
        let name = HeaderName::from_bytes(format!("x-shared-{}", i).as_bytes()).unwrap();
        extras.insert(name, value("new"));
    }
    let client = HttpClient::new("https://httpbin.org", Some(base)).unwrap();
    let merged = client.merge_headers(Some(extras)).unwrap();
    assert_eq!(merged.len(), 3276);
    assert!(merged.values().all(|v| v == "new"));
}

#[test]
fn names_and_values_of_every_make_are_carried_across() {
    let mut headers = defaults();
    headers.insert(HeaderName::from_bytes(b"X-Mixed-Case").unwrap(), value("kept"));
    headers.insert(AUTHORIZATION, HeaderValue::from_bytes(b"\xfa\tb").unwrap());
    headers.append(HeaderName::from_static("x-\"quoted\""), HeaderValue::from(7u16));
    headers.append(HeaderName::from_static("x-\"quoted\""), HeaderValue::from(8u16));
    let long = HeaderName::from_bytes(&[b'n'; 300]).unwrap();
    headers.insert(long.clone(), HeaderValue::from_name(ACCEPT));
    let merged = setup_client().merge_headers(Some(headers.clone())).unwrap();
    assert_eq!(merged, headers_with_last_values(&headers));
    assert_eq!(all(&merged, &HeaderName::from_static("x-\"quoted\"")), vec!["8"]);
    assert_eq!(all(&merged, &HeaderName::from_static("x-mixed-case")), vec!["kept"]);
    assert_eq!(all(&merged, &long), vec!["accept"]);
    assert_eq!(merged.get(AUTHORIZATION).unwrap().as_bytes(), b"\xfa\tb");
}

/// The map with, for each name, only the last of its values.
fn headers_with_last_values(headers: &HeaderMap) -> HeaderMap {
    let mut last = HeaderMap::new();
    for (name, value) in headers.iter() {
        last.insert(name.clone(), value.clone());
    }
    last
}

#[test]
fn many_headers_are_merged() {
    let mut base = HeaderMap::new();
    let mut extras = HeaderMap::new();
    for i in 0..300 {
        let name = HeaderName::from_bytes(format!("x-default-{}", i).as_bytes()).unwrap();
        base.insert(name, HeaderValue::from_str(&format!("d{}", i)).unwrap());
    }
    for i in 0..300 {
        let name = if i % 2 == 0 { format!("x-default-{}", i) } else { format!("x-extra-{}", i) };
        let name = HeaderName::from_bytes(name.as_bytes()).unwrap();
        extras.insert(name, HeaderValue::from_str(&format!("e{}", i)).unwrap());
    }
    let client = HttpClient::new("https://httpbin.org", Some(base)).unwrap();
    let merged = client.merge_headers(Some(extras)).unwrap();
    assert_eq!(merged.len(), 450);
    for i in 0..300 {
        let default = merged.get(format!("x-default-{}", i)).unwrap();
        let expected = if i % 2 == 0 { format!("e{}", i) } else { format!("d{}", i) };
        assert_eq!(default, expected.as_str());
        let extra = merged.get(format!("x-extra-{}", i));
        assert_eq!(extra.is_some(), i % 2 == 1);
    }
}
