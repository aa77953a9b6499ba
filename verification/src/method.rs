//! The closed enumeration of HTTP methods.

use crate::error::HttpError;
use crate::text::str_eq;
use vstd::prelude::*;

verus! {

/// The nine request methods of HTTP/1.1.  The request line's first token
/// is matched case-sensitively against the nine uppercase literals; any
/// other token is a parse error, never a new variant.
#[derive(Clone, Copy, Debug, PartialEq, Eq, Structural)]
pub enum Method {
    Connect,
    Delete,
    Get,
    Head,
    Options,
    Patch,
    Post,
    Put,
    Trace,
}

/// What `Method::from_str` returns on a given token.
pub open spec fn spec_parse_method(s: Seq<char>) -> Option<Method> {
    if s == "CONNECT"@ {
        Some(Method::Connect)
    } else if s == "DELETE"@ {
        Some(Method::Delete)
    } else if s == "GET"@ {
        Some(Method::Get)
    } else if s == "HEAD"@ {
        Some(Method::Head)
    } else if s == "OPTIONS"@ {
        Some(Method::Options)
    } else if s == "PATCH"@ {
        Some(Method::Patch)
    } else if s == "POST"@ {
        Some(Method::Post)
    } else if s == "PUT"@ {
        Some(Method::Put)
    } else if s == "TRACE"@ {
        Some(Method::Trace)
    } else {
        None
    }
}

impl Method {
    /// The uppercase token that names this method on the wire.
    pub open spec fn spec_wire(self) -> Seq<char> {
        match self {
            Method::Connect => "CONNECT"@,
            Method::Delete => "DELETE"@,
            Method::Get => "GET"@,
            Method::Head => "HEAD"@,
            Method::Options => "OPTIONS"@,
            Method::Patch => "PATCH"@,
            Method::Post => "POST"@,
            Method::Put => "PUT"@,
            Method::Trace => "TRACE"@,
        }
    }

    /// Parses a request-line token into a method; an unrecognized token
    /// is rejected with `HttpError::InvalidMethod`.
    pub fn from_str(s: &str) -> (r: Result<Method, HttpError>)
        ensures
            match r {
                Ok(m) => spec_parse_method(s@) == Some(m),
                Err(e) => spec_parse_method(s@) is None && e == HttpError::InvalidMethod,
            },
    {
        if str_eq(s, "CONNECT") {
            Ok(Method::Connect)
        } else if str_eq(s, "DELETE") {
            Ok(Method::Delete)
        } else if str_eq(s, "GET") {
            Ok(Method::Get)
        } else if str_eq(s, "HEAD") {
            Ok(Method::Head)
        } else if str_eq(s, "OPTIONS") {
            Ok(Method::Options)
        } else if str_eq(s, "PATCH") {
            Ok(Method::Patch)
        } else if str_eq(s, "POST") {
            Ok(Method::Post)
        } else if str_eq(s, "PUT") {
            Ok(Method::Put)
        } else if str_eq(s, "TRACE") {
            Ok(Method::Trace)
        } else {
            Err(HttpError::InvalidMethod)
        }
    }

    /// The wire token of this method, as an owned string.
    pub fn wire_string(&self) -> (r: String)
        ensures
            r@ == self.spec_wire(),
    {
        match self {
            Method::Connect => String::from_str("CONNECT"),
            Method::Delete => String::from_str("DELETE"),
            Method::Get => String::from_str("GET"),
            Method::Head => String::from_str("HEAD"),
            Method::Options => String::from_str("OPTIONS"),
            Method::Patch => String::from_str("PATCH"),
            Method::Post => String::from_str("POST"),
            Method::Put => String::from_str("PUT"),
            Method::Trace => String::from_str("TRACE"),
        }
    }
}

/// The converse direction of the round trip: a token that parses to a
/// method is that method's wire token.
pub proof fn lemma_wire_method_inverse(s: Seq<char>, m: Method)
    requires
        spec_parse_method(s) == Some(m),
    ensures
        m.spec_wire() == s,
{
}

/// Parsing is the inverse of wire serialization: the wire token of every
/// method parses back to exactly that method.
pub proof fn lemma_parse_method_inverse(m: Method)
    ensures
        spec_parse_method(m.spec_wire()) == Some(m),
{
    reveal_strlit("CONNECT");
    reveal_strlit("DELETE");
    reveal_strlit("GET");
    reveal_strlit("HEAD");
    reveal_strlit("OPTIONS");
    reveal_strlit("PATCH");
    reveal_strlit("POST");
    reveal_strlit("PUT");
    reveal_strlit("TRACE");
    assert("CONNECT"@.len() == 7);
    assert("DELETE"@.len() == 6);
    assert("GET"@.len() == 3);
    assert("HEAD"@.len() == 4);
    assert("OPTIONS"@.len() == 7);
    assert("PATCH"@.len() == 5);
    assert("POST"@.len() == 4);
    assert("PUT"@.len() == 3);
    assert("TRACE"@.len() == 5);
    assert("CONNECT"@[0] == 'C');
    assert("GET"@[0] == 'G');
    assert("HEAD"@[0] == 'H');
    assert("OPTIONS"@[0] == 'O');
    assert("PATCH"@[0] == 'P');
    assert("POST"@[0] == 'P');
    assert("POST"@[1] == 'O');
    assert("HEAD"@[1] == 'E');
    assert("PUT"@[0] == 'P');
    assert("TRACE"@[0] == 'T');
    match m {
        Method::Connect => assert(spec_parse_method("CONNECT"@) == Some(Method::Connect)),
        Method::Delete => assert(spec_parse_method("DELETE"@) == Some(Method::Delete)),
        Method::Get => assert(spec_parse_method("GET"@) == Some(Method::Get)),
        Method::Head => assert(spec_parse_method("HEAD"@) == Some(Method::Head)),
        Method::Options => assert(spec_parse_method("OPTIONS"@) == Some(Method::Options)),
        Method::Patch => assert(spec_parse_method("PATCH"@) == Some(Method::Patch)),
        Method::Post => assert(spec_parse_method("POST"@) == Some(Method::Post)),
        Method::Put => assert(spec_parse_method("PUT"@) == Some(Method::Put)),
        Method::Trace => assert(spec_parse_method("TRACE"@) == Some(Method::Trace)),
    }
}

} // verus!
