//! Response-head rendering and the terminal send.

use web_server::HttpResponse;
use web_server::MimeType;
use web_server::Status;

#[test]
fn send_with_defaults_renders_the_documented_head() {
    let res = HttpResponse::new();
    let out = res.send("hello");
    assert_eq!(
        out,
        "HTTP/1.1 200 OK\r\nContent-Length: 5\r\nContent-Type: text/html\r\n\r\nhello\n"
    );
}

#[test]
fn send_uses_the_byte_length_of_the_body() {
    let res = HttpResponse::new();
    let out = res.send("héllo");
    assert!(out.contains("Content-Length: 6\r\n"));
    assert!(out.ends_with("héllo\n"));
}

#[test]
fn status_and_content_type_are_replaceable() {
    let mut res = HttpResponse::new();
    res.status(Status::NotFound);
    res.content_type(MimeType::ApplicationJson);
    let out = res.send("{}");
    assert_eq!(
        out,
        "HTTP/1.1 404 Not Found\r\nContent-Length: 2\r\nContent-Type: application/json\r\n\r\n{}\n"
    );
}

#[test]
fn custom_headers_render_in_insertion_order() {
    let mut res = HttpResponse::new();
    res.insert_header("X-One".to_string(), "1".to_string());
    res.insert_header("X-Two".to_string(), "2".to_string());
    let head = res.send_res_head(0);
    assert_eq!(
        head,
        "HTTP/1.1 200 OK\r\nContent-Length: 0\r\nContent-Type: text/html\r\n\
         X-One: 1\r\nX-Two: 2\r\n\r\n"
    );
}

#[test]
fn overwritten_header_renders_once_with_the_new_value() {
    let mut res = HttpResponse::new();
    res.insert_header("X-A".to_string(), "old".to_string());
    res.insert_header("X-B".to_string(), "keep".to_string());
    res.insert_header("X-A".to_string(), "new".to_string());
    let head = res.send_res_head(3);
    assert_eq!(
        head,
        "HTTP/1.1 200 OK\r\nContent-Length: 3\r\nContent-Type: text/html\r\n\
         X-A: new\r\nX-B: keep\r\n\r\n"
    );
}

#[test]
fn empty_body_sends_a_lone_newline() {
    let res = HttpResponse::new();
    let out = res.send("");
    assert_eq!(
        out,
        "HTTP/1.1 200 OK\r\nContent-Length: 0\r\nContent-Type: text/html\r\n\r\n\n"
    );
}
