//! The text helpers: trimming, blank-line detection, request-line
//! splitting, header-line splitting and decimal rendering.

use web_server::dec_string;
use web_server::is_blank_line;
use web_server::split3;
use web_server::split_header_line;
use web_server::str_eq;
use web_server::trim_str;

#[test]
fn trims_surrounding_whitespace() {
    assert_eq!(trim_str("  hello  "), "hello");
    assert_eq!(trim_str("\t a b \r"), "a b");
    assert_eq!(trim_str("x"), "x");
    assert_eq!(trim_str(""), "");
    assert_eq!(trim_str("   "), "");
    assert_eq!(trim_str("\u{a0}wide\u{3000}"), "wide");
}

#[test]
fn blank_lines_are_whitespace_only() {
    assert!(is_blank_line(""));
    assert!(is_blank_line("   "));
    assert!(is_blank_line("\t\r"));
    assert!(!is_blank_line(" x "));
}

#[test]
fn str_eq_compares_characters() {
    assert!(str_eq("abc", "abc"));
    assert!(!str_eq("abc", "abd"));
    assert!(!str_eq("abc", "ab"));
    assert!(str_eq("", ""));
}

#[test]
fn splits_a_request_line_into_three_tokens() {
    let (a, b, c) = split3("GET /index.html HTTP/1.1");
    assert_eq!(a, "GET");
    assert_eq!(b, "/index.html");
    assert_eq!(c, "HTTP/1.1");
}

#[test]
fn missing_tokens_come_back_empty() {
    let (a, b, c) = split3("GET");
    assert_eq!(a, "GET");
    assert_eq!(b, "");
    assert_eq!(c, "");
    let (a, b, c) = split3("");
    assert_eq!(a, "");
    assert_eq!(b, "");
    assert_eq!(c, "");
}

#[test]
fn extra_whitespace_and_tokens_are_tolerated() {
    let (a, b, c) = split3("  GET   /  HTTP/1.1   extra");
    assert_eq!(a, "GET");
    assert_eq!(b, "/");
    assert_eq!(c, "HTTP/1.1");
}

#[test]
fn header_line_splits_on_the_first_colon() {
    assert_eq!(
        split_header_line("Host: example.com"),
        Some(("Host".to_string(), "example.com".to_string()))
    );
    assert_eq!(split_header_line("a:b:c"), Some(("a".to_string(), "b:c".to_string())));
    assert_eq!(split_header_line(" Key :  val "), Some(("Key".to_string(), "val".to_string())));
    assert_eq!(split_header_line("empty:"), Some(("empty".to_string(), "".to_string())));
}

#[test]
fn header_line_without_colon_is_none() {
    assert_eq!(split_header_line("no colon here"), None);
    assert_eq!(split_header_line(""), None);
}

#[test]
fn renders_decimals_exactly() {
    assert_eq!(dec_string(0), "0");
    assert_eq!(dec_string(7), "7");
    assert_eq!(dec_string(10), "10");
    assert_eq!(dec_string(45), "45");
    assert_eq!(dec_string(1009), "1009");
    assert_eq!(dec_string(4294967295), "4294967295");
}
