//! The header map and request parsing.

use web_server::HeaderMap;
use web_server::HttpError;
use web_server::HttpRequest;
use web_server::Method;
use web_server::get_req;

fn lines(raw: &[&str]) -> Vec<String> {
    raw.iter().map(|s| s.to_string()).collect()
}

#[test]
fn header_map_inserts_and_looks_up() {
    let mut h = HeaderMap::new();
    assert_eq!(h.len(), 0);
    h.insert("Host".to_string(), "example.com".to_string());
    h.insert("Accept".to_string(), "*/*".to_string());
    assert_eq!(h.len(), 2);
    assert_eq!(h.get("Host").map(|v| v.as_str()), Some("example.com"));
    assert_eq!(h.get("Accept").map(|v| v.as_str()), Some("*/*"));
    assert_eq!(h.get("Missing"), None);
}

#[test]
fn header_map_overwrite_keeps_position() {
    let mut h = HeaderMap::new();
    h.insert("A".to_string(), "1".to_string());
    h.insert("B".to_string(), "2".to_string());
    h.insert("A".to_string(), "3".to_string());
    assert_eq!(h.len(), 2);
    assert_eq!(h.key_at(0).as_str(), "A");
    assert_eq!(h.value_at(0).as_str(), "3");
    assert_eq!(h.key_at(1).as_str(), "B");
    assert_eq!(h.get("A").map(|v| v.as_str()), Some("3"));
}

#[test]
fn header_map_keys_are_case_sensitive() {
    let mut h = HeaderMap::new();
    h.insert("Host".to_string(), "upper".to_string());
    h.insert("host".to_string(), "lower".to_string());
    assert_eq!(h.len(), 2);
    assert_eq!(h.get("Host").map(|v| v.as_str()), Some("upper"));
    assert_eq!(h.get("host").map(|v| v.as_str()), Some("lower"));
}

#[test]
fn parses_a_full_request_head() {
    let input = lines(&["GET /index.html HTTP/1.1", "Host: example.com", "Accept: */*"]);
    let req = get_req(&input).unwrap();
    assert_eq!(req.method, Method::Get);
    assert_eq!(req.path, "/index.html");
    assert_eq!(req.version, "HTTP/1.1");
    assert_eq!(req.get_headers().get("Host").map(|v| v.as_str()), Some("example.com"));
    assert_eq!(req.get_headers().get("Accept").map(|v| v.as_str()), Some("*/*"));
}

#[test]
fn header_parsing_trims_and_last_duplicate_wins() {
    let input = lines(&["GET / HTTP/1.1", "A: 1", "A: 2"]);
    let req = get_req(&input).unwrap();
    assert_eq!(req.get_headers().len(), 1);
    assert_eq!(req.get_headers().get("A").map(|v| v.as_str()), Some("2"));
}

#[test]
fn header_parsing_preserves_key_case() {
    let input = lines(&["GET / HTTP/1.1", "X-Custom-Header:  spaced value  "]);
    let req = get_req(&input).unwrap();
    assert_eq!(req.get_headers().get("X-Custom-Header").map(|v| v.as_str()), Some("spaced value"));
    assert_eq!(req.get_headers().get("x-custom-header"), None);
}

#[test]
fn line_without_colon_is_ignored() {
    let input = lines(&["GET / HTTP/1.1", "Host: a", "garbage line", "Accept: b"]);
    let req = get_req(&input).unwrap();
    assert_eq!(req.get_headers().len(), 2);
    assert_eq!(req.get_headers().get("Host").map(|v| v.as_str()), Some("a"));
    assert_eq!(req.get_headers().get("Accept").map(|v| v.as_str()), Some("b"));
    assert_eq!(req.get_headers().get("garbage line"), None);
}

#[test]
fn blank_line_ends_the_headers() {
    let input = lines(&["GET / HTTP/1.1", "Host: a", "  ", "After: blank"]);
    let req = get_req(&input).unwrap();
    assert_eq!(req.get_headers().len(), 1);
    assert_eq!(req.get_headers().get("After"), None);
}

#[test]
fn invalid_method_token_fails_the_parse() {
    let input = lines(&["FETCH / HTTP/1.1", "Host: a"]);
    assert_eq!(get_req(&input).err(), Some(HttpError::InvalidMethod));
}

#[test]
fn empty_input_is_a_bad_request() {
    let input: Vec<String> = Vec::new();
    assert_eq!(get_req(&input).err(), Some(HttpError::BadRequest));
}

#[test]
fn short_request_line_yields_empty_tokens() {
    let input = lines(&["GET"]);
    let req = get_req(&input).unwrap();
    assert_eq!(req.method, Method::Get);
    assert_eq!(req.path, "");
    assert_eq!(req.version, "");
}

#[test]
fn middleware_can_add_headers_to_a_request() {
    let mut h = HeaderMap::new();
    h.insert("Host".to_string(), "a".to_string());
    let mut req = HttpRequest::new(
        Method::Post,
        "/submit".to_string(),
        "HTTP/1.1".to_string(),
        h,
    );
    req.insert_header("hello".to_string(), "World".to_string());
    req.insert_header("Host".to_string(), "b".to_string());
    assert_eq!(req.get_headers().get("hello").map(|v| v.as_str()), Some("World"));
    assert_eq!(req.get_headers().get("Host").map(|v| v.as_str()), Some("b"));
}
