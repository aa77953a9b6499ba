//! The closed enumeration of HTTP status codes.

use vstd::prelude::*;

verus! {

/// The standard HTTP status codes.  A response holds exactly one current
/// status, replaceable until the head is sent; the default is `OK`.
#[derive(Clone, Copy, Debug, PartialEq, Eq, Structural)]
pub enum Status {
    Continue,
    SwitchingProtocols,
    Processing,
    EarlyHints,
    OK,
    Created,
    Accepted,
    NonAuthoritativeInformation,
    NoContent,
    ResetContent,
    PartialContent,
    MultiStatus,
    AlreadyReported,
    IMUsed,
    MultipleChoices,
    MovedPermanently,
    Found,
    SeeOther,
    NotModified,
    TemporaryRedirect,
    PermanentRedirect,
    BadRequest,
    Unauthorized,
    PaymentRequired,
    Forbidden,
    NotFound,
    MethodNotAllowed,
    NotAcceptable,
    ProxyAuthenticationRequired,
    RequestTimeout,
    Conflict,
    Gone,
    LengthRequired,
    PreconditionFailed,
    ContentTooLarge,
    URITooLong,
    UnsupportedMediaType,
    RangeNotSatisfiable,
    ExpectationFailed,
    ImATeapot,
    MisdirectedRequest,
    UnprocessableContent,
    Locked,
    FailedDependency,
    TooEarly,
    UpgradeRequired,
    PreconditionRequired,
    TooManyRequests,
    RequestHeaderFieldsTooLarge,
    UnavailableForLegalReasons,
    InternalServerError,
    NotImplemented,
    BadGateway,
    ServiceUnavailable,
    GatewayTimeout,
    HTTPVersionNotSupported,
    VariantAlsoNegotiates,
    InsufficientStorage,
    LoopDetected,
    NotExtended,
    NetworkAuthenticationRequired,
}

impl Status {
    /// The numeric code of this status.
    pub open spec fn spec_code(self) -> u32 {
        match self {
            Status::Continue => 100,
            Status::SwitchingProtocols => 101,
            Status::Processing => 102,
            Status::EarlyHints => 103,
            Status::OK => 200,
            Status::Created => 201,
            Status::Accepted => 202,
            Status::NonAuthoritativeInformation => 203,
            Status::NoContent => 204,
            Status::ResetContent => 205,
            Status::PartialContent => 206,
            Status::MultiStatus => 207,
            Status::AlreadyReported => 208,
            Status::IMUsed => 226,
            Status::MultipleChoices => 300,
            Status::MovedPermanently => 301,
            Status::Found => 302,
            Status::SeeOther => 303,
            Status::NotModified => 304,
            Status::TemporaryRedirect => 307,
            Status::PermanentRedirect => 308,
            Status::BadRequest => 400,
            Status::Unauthorized => 401,
            Status::PaymentRequired => 402,
            Status::Forbidden => 403,
            Status::NotFound => 404,
            Status::MethodNotAllowed => 405,
            Status::NotAcceptable => 406,
            Status::ProxyAuthenticationRequired => 407,
            Status::RequestTimeout => 408,
            Status::Conflict => 409,
            Status::Gone => 410,
            Status::LengthRequired => 411,
            Status::PreconditionFailed => 412,
            Status::ContentTooLarge => 413,
            Status::URITooLong => 414,
            Status::UnsupportedMediaType => 415,
            Status::RangeNotSatisfiable => 416,
            Status::ExpectationFailed => 417,
            Status::ImATeapot => 418,
            Status::MisdirectedRequest => 421,
            Status::UnprocessableContent => 422,
            Status::Locked => 423,
            Status::FailedDependency => 424,
            Status::TooEarly => 425,
            Status::UpgradeRequired => 426,
            Status::PreconditionRequired => 428,
            Status::TooManyRequests => 429,
            Status::RequestHeaderFieldsTooLarge => 431,
            Status::UnavailableForLegalReasons => 451,
            Status::InternalServerError => 500,
            Status::NotImplemented => 501,
            Status::BadGateway => 502,
            Status::ServiceUnavailable => 503,
            Status::GatewayTimeout => 504,
            Status::HTTPVersionNotSupported => 505,
            Status::VariantAlsoNegotiates => 506,
            Status::InsufficientStorage => 507,
            Status::LoopDetected => 508,
            Status::NotExtended => 510,
            Status::NetworkAuthenticationRequired => 511,
        }
    }

    /// The wire form of this status: numeric code, a space, and the
    /// canonical reason phrase.
    pub open spec fn spec_wire(self) -> Seq<char> {
        match self {
            Status::Continue => "100 Continue"@,
            Status::SwitchingProtocols => "101 Switching Protocols"@,
            Status::Processing => "102 Processing"@,
            Status::EarlyHints => "103 Early Hints"@,
            Status::OK => "200 OK"@,
            Status::Created => "201 Created"@,
            Status::Accepted => "202 Accepted"@,
            Status::NonAuthoritativeInformation => "203 Non-Authoritative Information"@,
            Status::NoContent => "204 No Content"@,
            Status::ResetContent => "205 Reset Content"@,
            Status::PartialContent => "206 Partial Content"@,
            Status::MultiStatus => "207 Multi-Status"@,
            Status::AlreadyReported => "208 Already Reported"@,
            Status::IMUsed => "226 IM Used"@,
            Status::MultipleChoices => "300 Multiple Choices"@,
            Status::MovedPermanently => "301 Moved Permanently"@,
            Status::Found => "302 Found"@,
            Status::SeeOther => "303 See Other"@,
            Status::NotModified => "304 Not Modified"@,
            Status::TemporaryRedirect => "307 Temporary Redirect"@,
            Status::PermanentRedirect => "308 Permanent Redirect"@,
            Status::BadRequest => "400 Bad Request"@,
            Status::Unauthorized => "401 Unauthorized"@,
            Status::PaymentRequired => "402 Payment Required"@,
            Status::Forbidden => "403 Forbidden"@,
            Status::NotFound => "404 Not Found"@,
            Status::MethodNotAllowed => "405 Method Not Allowed"@,
            Status::NotAcceptable => "406 Not Acceptable"@,
            Status::ProxyAuthenticationRequired => "407 Proxy Authentication Required"@,
            Status::RequestTimeout => "408 Request Timeout"@,
            Status::Conflict => "409 Conflict"@,
            Status::Gone => "410 Gone"@,
            Status::LengthRequired => "411 Length Required"@,
            Status::PreconditionFailed => "412 Precondition Failed"@,
            Status::ContentTooLarge => "413 Content Too Large"@,
            Status::URITooLong => "414 URI Too Long"@,
            Status::UnsupportedMediaType => "415 Unsupported Media Type"@,
            Status::RangeNotSatisfiable => "416 Range Not Satisfiable"@,
            Status::ExpectationFailed => "417 Expectation Failed"@,
            Status::ImATeapot => "418 I'm a teapot"@,
            Status::MisdirectedRequest => "421 Misdirected Request"@,
            Status::UnprocessableContent => "422 Unprocessable Content"@,
            Status::Locked => "423 Locked"@,
            Status::FailedDependency => "424 Failed Dependency"@,
            Status::TooEarly => "425 Too Early"@,
            Status::UpgradeRequired => "426 Upgrade Required"@,
            Status::PreconditionRequired => "428 Precondition Required"@,
            Status::TooManyRequests => "429 Too Many Requests"@,
            Status::RequestHeaderFieldsTooLarge => "431 Request Header Fields Too Large"@,
            Status::UnavailableForLegalReasons => "451 Unavailable For Legal Reasons"@,
            Status::InternalServerError => "500 Internal Server Error"@,
            Status::NotImplemented => "501 Not Implemented"@,
            Status::BadGateway => "502 Bad Gateway"@,
            Status::ServiceUnavailable => "503 Service Unavailable"@,
            Status::GatewayTimeout => "504 Gateway Timeout"@,
            Status::HTTPVersionNotSupported => "505 HTTP Version Not Supported"@,
            Status::VariantAlsoNegotiates => "506 Variant Also Negotiates"@,
            Status::InsufficientStorage => "507 Insufficient Storage"@,
            Status::LoopDetected => "508 Loop Detected"@,
            Status::NotExtended => "510 Not Extended"@,
            Status::NetworkAuthenticationRequired => "511 Network Authentication Required"@,
        }
    }

    /// The numeric code of this status.
    pub fn code(&self) -> (r: u32)
        ensures
            r == self.spec_code(),
    {
        match self {
            Status::Continue => 100,
            Status::SwitchingProtocols => 101,
            Status::Processing => 102,
            Status::EarlyHints => 103,
            Status::OK => 200,
            Status::Created => 201,
            Status::Accepted => 202,
            Status::NonAuthoritativeInformation => 203,
            Status::NoContent => 204,
            Status::ResetContent => 205,
            Status::PartialContent => 206,
            Status::MultiStatus => 207,
            Status::AlreadyReported => 208,
            Status::IMUsed => 226,
            Status::MultipleChoices => 300,
            Status::MovedPermanently => 301,
            Status::Found => 302,
            Status::SeeOther => 303,
            Status::NotModified => 304,
            Status::TemporaryRedirect => 307,
            Status::PermanentRedirect => 308,
            Status::BadRequest => 400,
            Status::Unauthorized => 401,
            Status::PaymentRequired => 402,
            Status::Forbidden => 403,
            Status::NotFound => 404,
            Status::MethodNotAllowed => 405,
            Status::NotAcceptable => 406,
            Status::ProxyAuthenticationRequired => 407,
            Status::RequestTimeout => 408,
            Status::Conflict => 409,
            Status::Gone => 410,
            Status::LengthRequired => 411,
            Status::PreconditionFailed => 412,
            Status::ContentTooLarge => 413,
            Status::URITooLong => 414,
            Status::UnsupportedMediaType => 415,
            Status::RangeNotSatisfiable => 416,
            Status::ExpectationFailed => 417,
            Status::ImATeapot => 418,
            Status::MisdirectedRequest => 421,
            Status::UnprocessableContent => 422,
            Status::Locked => 423,
            Status::FailedDependency => 424,
            Status::TooEarly => 425,
            Status::UpgradeRequired => 426,
            Status::PreconditionRequired => 428,
            Status::TooManyRequests => 429,
            Status::RequestHeaderFieldsTooLarge => 431,
            Status::UnavailableForLegalReasons => 451,
            Status::InternalServerError => 500,
            Status::NotImplemented => 501,
            Status::BadGateway => 502,
            Status::ServiceUnavailable => 503,
            Status::GatewayTimeout => 504,
            Status::HTTPVersionNotSupported => 505,
            Status::VariantAlsoNegotiates => 506,
            Status::InsufficientStorage => 507,
            Status::LoopDetected => 508,
            Status::NotExtended => 510,
            Status::NetworkAuthenticationRequired => 511,
        }
    }

    /// The wire form of this status, as an owned string.
    pub fn wire_string(&self) -> (r: String)
        ensures
            r@ == self.spec_wire(),
    {
        match self {
            Status::Continue => String::from_str("100 Continue"),
            Status::SwitchingProtocols => String::from_str("101 Switching Protocols"),
            Status::Processing => String::from_str("102 Processing"),
            Status::EarlyHints => String::from_str("103 Early Hints"),
            Status::OK => String::from_str("200 OK"),
            Status::Created => String::from_str("201 Created"),
            Status::Accepted => String::from_str("202 Accepted"),
            Status::NonAuthoritativeInformation => String::from_str("203 Non-Authoritative Information"),
            Status::NoContent => String::from_str("204 No Content"),
            Status::ResetContent => String::from_str("205 Reset Content"),
            Status::PartialContent => String::from_str("206 Partial Content"),
            Status::MultiStatus => String::from_str("207 Multi-Status"),
            Status::AlreadyReported => String::from_str("208 Already Reported"),
            Status::IMUsed => String::from_str("226 IM Used"),
            Status::MultipleChoices => String::from_str("300 Multiple Choices"),
            Status::MovedPermanently => String::from_str("301 Moved Permanently"),
            Status::Found => String::from_str("302 Found"),
            Status::SeeOther => String::from_str("303 See Other"),
            Status::NotModified => String::from_str("304 Not Modified"),
            Status::TemporaryRedirect => String::from_str("307 Temporary Redirect"),
            Status::PermanentRedirect => String::from_str("308 Permanent Redirect"),
            Status::BadRequest => String::from_str("400 Bad Request"),
            Status::Unauthorized => String::from_str("401 Unauthorized"),
            Status::PaymentRequired => String::from_str("402 Payment Required"),
            Status::Forbidden => String::from_str("403 Forbidden"),
            Status::NotFound => String::from_str("404 Not Found"),
            Status::MethodNotAllowed => String::from_str("405 Method Not Allowed"),
            Status::NotAcceptable => String::from_str("406 Not Acceptable"),
            Status::ProxyAuthenticationRequired => String::from_str("407 Proxy Authentication Required"),
            Status::RequestTimeout => String::from_str("408 Request Timeout"),
            Status::Conflict => String::from_str("409 Conflict"),
            Status::Gone => String::from_str("410 Gone"),
            Status::LengthRequired => String::from_str("411 Length Required"),
            Status::PreconditionFailed => String::from_str("412 Precondition Failed"),
            Status::ContentTooLarge => String::from_str("413 Content Too Large"),
            Status::URITooLong => String::from_str("414 URI Too Long"),
            Status::UnsupportedMediaType => String::from_str("415 Unsupported Media Type"),
            Status::RangeNotSatisfiable => String::from_str("416 Range Not Satisfiable"),
            Status::ExpectationFailed => String::from_str("417 Expectation Failed"),
            Status::ImATeapot => String::from_str("418 I'm a teapot"),
            Status::MisdirectedRequest => String::from_str("421 Misdirected Request"),
            Status::UnprocessableContent => String::from_str("422 Unprocessable Content"),
            Status::Locked => String::from_str("423 Locked"),
            Status::FailedDependency => String::from_str("424 Failed Dependency"),
            Status::TooEarly => String::from_str("425 Too Early"),
            Status::UpgradeRequired => String::from_str("426 Upgrade Required"),
            Status::PreconditionRequired => String::from_str("428 Precondition Required"),
            Status::TooManyRequests => String::from_str("429 Too Many Requests"),
            Status::RequestHeaderFieldsTooLarge => String::from_str("431 Request Header Fields Too Large"),
            Status::UnavailableForLegalReasons => String::from_str("451 Unavailable For Legal Reasons"),
            Status::InternalServerError => String::from_str("500 Internal Server Error"),
            Status::NotImplemented => String::from_str("501 Not Implemented"),
            Status::BadGateway => String::from_str("502 Bad Gateway"),
            Status::ServiceUnavailable => String::from_str("503 Service Unavailable"),
            Status::GatewayTimeout => String::from_str("504 Gateway Timeout"),
            Status::HTTPVersionNotSupported => String::from_str("505 HTTP Version Not Supported"),
            Status::VariantAlsoNegotiates => String::from_str("506 Variant Also Negotiates"),
            Status::InsufficientStorage => String::from_str("507 Insufficient Storage"),
            Status::LoopDetected => String::from_str("508 Loop Detected"),
            Status::NotExtended => String::from_str("510 Not Extended"),
            Status::NetworkAuthenticationRequired => String::from_str("511 Network Authentication Required"),
        }
    }
}

impl Default for Status {
    /// A fresh response starts out as `200 OK`.
    fn default() -> (r: Self)
        ensures
            r == Status::OK,
    {
        Status::OK
    }
}

} // verus!
