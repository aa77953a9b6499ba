//! The wire enumerations: method parsing, status codes and reason
//! phrases, media-type strings, and error wording.

use web_server::HttpError;
use web_server::Method;
use web_server::MimeType;
use web_server::Status;

#[test]
fn parses_all_nine_methods() {
    assert_eq!(Method::from_str("CONNECT"), Ok(Method::Connect));
    assert_eq!(Method::from_str("DELETE"), Ok(Method::Delete));
    assert_eq!(Method::from_str("GET"), Ok(Method::Get));
    assert_eq!(Method::from_str("HEAD"), Ok(Method::Head));
    assert_eq!(Method::from_str("OPTIONS"), Ok(Method::Options));
    assert_eq!(Method::from_str("PATCH"), Ok(Method::Patch));
    assert_eq!(Method::from_str("POST"), Ok(Method::Post));
    assert_eq!(Method::from_str("PUT"), Ok(Method::Put));
    assert_eq!(Method::from_str("TRACE"), Ok(Method::Trace));
}

#[test]
fn rejects_unknown_method_tokens() {
    assert_eq!(Method::from_str("FETCH"), Err(HttpError::InvalidMethod));
    assert_eq!(Method::from_str("get"), Err(HttpError::InvalidMethod));
    assert_eq!(Method::from_str("GETX"), Err(HttpError::InvalidMethod));
    assert_eq!(Method::from_str(""), Err(HttpError::InvalidMethod));
    assert_eq!(Method::from_str(" GET"), Err(HttpError::InvalidMethod));
}

#[test]
fn method_wire_string_parses_back() {
    let methods = vec![
        Method::Connect,
        Method::Delete,
        Method::Get,
        Method::Head,
        Method::Options,
        Method::Patch,
        Method::Post,
        Method::Put,
        Method::Trace,
    ];
    for m in methods {
        let token = m.wire_string();
        assert_eq!(Method::from_str(token.as_str()), Ok(m));
    }
}

#[test]
fn status_defaults_to_ok() {
    let s = Status::default();
    assert_eq!(s.code(), 200);
    assert_eq!(s.wire_string(), "200 OK");
}

#[test]
fn status_codes_match_the_table() {
    assert_eq!(Status::Continue.code(), 100);
    assert_eq!(Status::OK.code(), 200);
    assert_eq!(Status::IMUsed.code(), 226);
    assert_eq!(Status::MovedPermanently.code(), 301);
    assert_eq!(Status::BadRequest.code(), 400);
    assert_eq!(Status::NotFound.code(), 404);
    assert_eq!(Status::ImATeapot.code(), 418);
    assert_eq!(Status::InternalServerError.code(), 500);
    assert_eq!(Status::NetworkAuthenticationRequired.code(), 511);
}

#[test]
fn status_wire_strings_match_the_table() {
    assert_eq!(Status::NotFound.wire_string(), "404 Not Found");
    assert_eq!(Status::ImATeapot.wire_string(), "418 I'm a teapot");
    assert_eq!(
        Status::NonAuthoritativeInformation.wire_string(),
        "203 Non-Authoritative Information"
    );
    assert_eq!(Status::HTTPVersionNotSupported.wire_string(), "505 HTTP Version Not Supported");
}

#[test]
fn mime_defaults_to_text_html() {
    assert_eq!(MimeType::default(), MimeType::TextHtml);
    assert_eq!(MimeType::default().wire_string(), "text/html");
}

#[test]
fn mime_wire_strings_match_the_table() {
    assert_eq!(MimeType::TextPlain.wire_string(), "text/plain");
    assert_eq!(MimeType::ImageJpg.wire_string(), "image/jpeg");
    assert_eq!(MimeType::ImagePng.wire_string(), "image/png");
    assert_eq!(MimeType::VideoMp4.wire_string(), "video/mp4");
    assert_eq!(MimeType::ApplicationJson.wire_string(), "application/json");
    assert_eq!(MimeType::ApplicationPdf.wire_string(), "application/pdf");
}

#[test]
fn error_messages() {
    assert_eq!(HttpError::InvalidMethod.message(), "Invalid Method");
    assert_eq!(HttpError::BadRequest.message(), "Bad Request");
    assert_eq!(HttpError::IoError.message(), "IO Error");
}
