//! The parsed representation of one inbound request, and the parser
//! that builds it from the lines read off a connection.

use crate::error::HttpError;
use crate::headers::HeaderMap;
use crate::method::Method;
use crate::method::spec_parse_method;
use crate::text::spec_split3;
use crate::text::spec_split_header_line;
use crate::text::spec_trim;
use crate::text::is_blank_line;
use crate::text::split3;
use crate::text::split_header_line;
use vstd::prelude::*;

verus! {

/// One parsed request.  The path is opaque and matched verbatim; the
/// version is captured but never validated.  Middleware may add or
/// overwrite header entries for the rest of the chain.
pub struct HttpRequest {
    pub method: Method,
    pub path: String,
    pub version: String,
    pub header: HeaderMap,
}

impl HttpRequest {
    /// The header mapping this request carries.
    pub open spec fn headers_view(&self) -> Map<Seq<char>, Seq<char>> {
        self.header@
    }

    /// The stored header entries, in insertion order.
    pub open spec fn header_entries(&self) -> Seq<(Seq<char>, Seq<char>)> {
        self.header.entries_view()
    }

    /// The header store is well formed.
    pub open spec fn wf(&self) -> bool {
        self.header.wf()
    }

    /// Assembles a request from its parts.
    pub fn new(method: Method, path: String, version: String, header: HeaderMap) -> (r:
        HttpRequest)
        requires
            header.wf(),
        ensures
            r.method == method,
            r.path@ == path@,
            r.version@ == version@,
            r.headers_view() == header@,
            r.header_entries() == header.entries_view(),
            r.wf(),
    {
        HttpRequest { method, path, version, header }
    }

    /// Insert-or-overwrite a header, case-sensitively on the name.
    pub fn insert_header(&mut self, key: String, value: String)
        requires
            old(self).wf(),
        ensures
            final(self).wf(),
            final(self).method == old(self).method,
            final(self).path@ == old(self).path@,
            final(self).version@ == old(self).version@,
            final(self).headers_view() == old(self).headers_view().insert(key@, value@),
    {
        self.header.insert(key, value);
    }

    /// A read-only view of the headers.
    pub fn get_headers(&self) -> (r: &HeaderMap)
        ensures
            r@ == self.headers_view(),
            r.entries_view() == self.header_entries(),
            r.wf() == self.wf(),
    {
        &self.header
    }
}

/// The header mapping that a run of header lines denotes, starting from
/// `m`: lines are taken until the first blank one, a line with no colon
/// is skipped, and later occurrences of a name overwrite earlier ones.
pub open spec fn spec_headers_from(
    m: Map<Seq<char>, Seq<char>>,
    lines: Seq<Seq<char>>,
) -> Map<Seq<char>, Seq<char>>
    decreases lines.len(),
{
    if lines.len() == 0 {
        m
    } else if spec_trim(lines[0]).len() == 0 {
        m
    } else {
        let m2 = match spec_split_header_line(lines[0]) {
            Option::None => m,
            Option::Some(kv) => m.insert(kv.0, kv.1),
        };
        spec_headers_from(m2, lines.drop_first())
    }
}

/// The header mapping that a run of header lines denotes.
pub open spec fn spec_parse_headers(lines: Seq<Seq<char>>) -> Map<Seq<char>, Seq<char>> {
    spec_headers_from(Map::empty(), lines)
}

/// What parsing a whole request head yields: the first line splits on
/// whitespace into method, path and version tokens (missing ones are
/// empty), the method token must be one of the nine known literals, and
/// the remaining lines form the header mapping.
pub open spec fn spec_get_req(lines: Seq<Seq<char>>) -> Result<
    (Method, Seq<char>, Seq<char>, Map<Seq<char>, Seq<char>>),
    HttpError,
> {
    if lines.len() == 0 {
        Err(HttpError::BadRequest)
    } else {
        let toks = spec_split3(lines[0]);
        match spec_parse_method(toks.0) {
            Option::Some(m) => Ok((m, toks.1, toks.2, spec_parse_headers(lines.drop_first()))),
            Option::None => Err(HttpError::InvalidMethod),
        }
    }
}

/// Duplicate header names resolve to the later line's value: two
/// non-blank lines carrying the same name leave the second line's value
/// in the mapping, whatever was mapped before.
pub proof fn lemma_last_duplicate_wins(
    m: Map<Seq<char>, Seq<char>>,
    l1: Seq<char>,
    l2: Seq<char>,
    k: Seq<char>,
    v1: Seq<char>,
    v2: Seq<char>,
)
    requires
        spec_split_header_line(l1) == Some((k, v1)),
        spec_split_header_line(l2) == Some((k, v2)),
        spec_trim(l1).len() > 0,
        spec_trim(l2).len() > 0,
    ensures
        spec_headers_from(m, seq![l1, l2]).contains_key(k),
        spec_headers_from(m, seq![l1, l2])[k] == v2,
{
    let lines = seq![l1, l2];
    assert(lines[0] == l1);
    assert(lines.drop_first() =~= seq![l2]);
    assert(seq![l2][0] == l2);
    assert(seq![l2].drop_first() =~= Seq::<Seq<char>>::empty());
    assert(spec_headers_from(m, lines) == spec_headers_from(m.insert(k, v1), seq![l2]));
    assert(spec_headers_from(m.insert(k, v1), seq![l2]) == spec_headers_from(
        m.insert(k, v1).insert(k, v2),
        Seq::<Seq<char>>::empty(),
    ));
}

/// A header line with no colon is ignored: it neither aborts parsing
/// nor changes the mapping the remaining lines produce.
pub proof fn lemma_no_colon_ignored(
    m: Map<Seq<char>, Seq<char>>,
    l: Seq<char>,
    rest: Seq<Seq<char>>,
)
    requires
        spec_split_header_line(l) is None,
        spec_trim(l).len() > 0,
    ensures
        spec_headers_from(m, seq![l] + rest) == spec_headers_from(m, rest),
{
    let lines = seq![l] + rest;
    assert(lines.len() == 1 + rest.len());
    assert(lines[0] == l);
    assert(lines.drop_first() =~= rest);
}

/// Parses a request head.  `lines` holds the request line followed by
/// the header lines as read from the connection; everything from the
/// first blank header line on is ignored.
pub fn get_req(lines: &Vec<String>) -> (r: Result<HttpRequest, HttpError>)
    ensures
        match r {
            Ok(req) => spec_get_req(lines.deep_view()) == Ok::<_, HttpError>(
                (req.method, req.path@, req.version@, req.headers_view()),
            ) && req.wf(),
            Err(e) => spec_get_req(lines.deep_view()) == Err::<
                (Method, Seq<char>, Seq<char>, Map<Seq<char>, Seq<char>>),
                _,
            >(e),
        },
{
    let ghost ld = lines.deep_view();
    let n = lines.len();
    if n == 0 {
        return Err(HttpError::BadRequest);
    }
    proof {
        assert(ld[0] == lines@[0]@);
    }
    let parts = split3(lines[0].as_str());
    let method = match Method::from_str(parts.0.as_str()) {
        Ok(m) => m,
        Err(e) => {
            return Err(e);
        },
    };
    let ghost hl = ld.drop_first();
    let mut header = HeaderMap::new();
    proof {
        assert(hl.skip(0) =~= hl);
    }
    let mut i: usize = 1;
    while i < n
        invariant
            1 <= i <= n,
            n == lines@.len(),
            ld == lines.deep_view(),
            hl == ld.drop_first(),
            header.wf(),
            spec_headers_from(header@, hl.skip(i - 1)) == spec_parse_headers(hl),
        ensures
            header.wf(),
            spec_parse_headers(hl) == header@,
        decreases n - i,
    {
        proof {
            assert(ld[i as int] == lines@[i as int]@);
            assert(hl.skip(i - 1)[0] == ld[i as int]);
        }
        let line = &lines[i];
        if is_blank_line(line.as_str()) {
            proof {
                assert(spec_headers_from(header@, hl.skip(i - 1)) == header@);
            }
            break ;
        }
        match split_header_line(line.as_str()) {
            Option::Some(kv) => {
                header.insert(kv.0, kv.1);
            },
            Option::None => {},
        }
        proof {
            assert(hl.skip(i - 1).drop_first() =~= hl.skip(i as int));
        }
        i = i + 1;
    }
    Ok(HttpRequest::new(method, parts.1, parts.2, header))
}

} // verus!
