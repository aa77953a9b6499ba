//! The accumulator for an outgoing response, and the rendering of its
//! head and body into the exact bytes that go on the wire.

use crate::headers::HeaderMap;
use crate::mime::MimeType;
use crate::status::Status;
use crate::text::dec_string;
use crate::text::spec_dec;
use vstd::prelude::*;
use vstd::string::StringSliceAdditionalSpecFns;

verus! {

/// The custom headers, rendered in storage order as `name: value` lines.
pub open spec fn spec_render_headers(hs: Seq<(Seq<char>, Seq<char>)>) -> Seq<char>
    decreases hs.len(),
{
    if hs.len() == 0 {
        Seq::empty()
    } else {
        spec_render_headers(hs.drop_last()) + hs.last().0 + ": "@ + hs.last().1 + "\r\n"@
    }
}

/// The byte length of a string slice, as `str::len` reports it.
pub open spec fn spec_byte_len(s: &str) -> int {
    s.spec_bytes().len() as usize as int
}

/// The whole response head: status line, `Content-Length`,
/// `Content-Type`, the custom headers, and a blank line.  Every line
/// ends in CRLF.
pub open spec fn spec_res_head(
    status: Status,
    mime: MimeType,
    hs: Seq<(Seq<char>, Seq<char>)>,
    len: int,
) -> Seq<char> {
    "HTTP/1.1 "@ + status.spec_wire() + "\r\n"@ + "Content-Length: "@ + spec_dec(len) + "\r\n"@
        + "Content-Type: "@ + mime.spec_wire() + "\r\n"@ + spec_render_headers(hs) + "\r\n"@
}

/// An accumulator for one outgoing response: a status, a content type
/// and custom headers, each replaceable until the terminal send renders
/// the head.
pub struct HttpResponse {
    pub status: Status,
    pub content_type: MimeType,
    pub header: HeaderMap,
}

impl HttpResponse {
    /// A fresh response: `200 OK`, `text/html`, no custom headers.
    pub fn new() -> (r: HttpResponse)
        ensures
            r.status == Status::OK,
            r.content_type == MimeType::TextHtml,
            r.header@ == Map::<Seq<char>, Seq<char>>::empty(),
            r.header.entries_view() == Seq::<(Seq<char>, Seq<char>)>::empty(),
            r.header.wf(),
    {
        HttpResponse { status: Status::default(), content_type: MimeType::default(), header: HeaderMap::new() }
    }

    /// Replaces the status.
    pub fn status(&mut self, status: Status)
        ensures
            final(self).status == status,
            final(self).content_type == old(self).content_type,
            final(self).header == old(self).header,
    {
        self.status = status;
    }

    /// Replaces the content type.
    pub fn content_type(&mut self, t: MimeType)
        ensures
            final(self).content_type == t,
            final(self).status == old(self).status,
            final(self).header == old(self).header,
    {
        self.content_type = t;
    }

    /// Insert-or-overwrite a custom header.
    pub fn insert_header(&mut self, key: String, value: String)
        requires
            old(self).header.wf(),
        ensures
            final(self).header.wf(),
            final(self).header@ == old(self).header@.insert(key@, value@),
            final(self).status == old(self).status,
            final(self).content_type == old(self).content_type,
    {
        self.header.insert(key, value);
    }

    /// Renders the response head for a body of `len` bytes.
    pub fn send_res_head(&self, len: usize) -> (r: String)
        ensures
            r@ == spec_res_head(self.status, self.content_type, self.header.entries_view(), len as int),
    {
        let ghost es = self.header.entries_view();
        let mut out = String::from_str("HTTP/1.1 ");
        let status_text = self.status.wire_string();
        out.append(status_text.as_str());
        out.append("\r\n");
        out.append("Content-Length: ");
        let len_text = dec_string(len);
        out.append(len_text.as_str());
        out.append("\r\n");
        out.append("Content-Type: ");
        let mime_text = self.content_type.wire_string();
        out.append(mime_text.as_str());
        out.append("\r\n");
        let ghost head_prefix = out@;
        let n = self.header.len();
        proof {
            assert(head_prefix + spec_render_headers(es.take(0)) =~= out@);
        }
        let mut i: usize = 0;
        while i < n
            invariant
                i <= n,
                n == es.len(),
                es == self.header.entries_view(),
                out@ == head_prefix + spec_render_headers(es.take(i as int)),
            decreases n - i,
        {
            out.append(self.header.key_at(i).as_str());
            out.append(": ");
            out.append(self.header.value_at(i).as_str());
            out.append("\r\n");
            proof {
                assert(es.take(i + 1).drop_last() =~= es.take(i as int));
                assert(es.take(i + 1).last() == es[i as int]);
                assert(out@ =~= head_prefix + spec_render_headers(es.take(i + 1)));
            }
            i = i + 1;
        }
        out.append("\r\n");
        proof {
            assert(es.take(n as int) =~= es);
            assert(out@ =~= spec_res_head(self.status, self.content_type, es, len as int));
        }
        out
    }

    /// The terminal send: the head for this body's byte length, then the
    /// body text, then a newline.  Consumes the response; what comes
    /// back is exactly what goes on the wire.
    pub fn send(self, value: &str) -> (r: String)
        ensures
            r@ == spec_res_head(
                self.status,
                self.content_type,
                self.header.entries_view(),
                spec_byte_len(value),
            ) + value@ + "\n"@,
    {
        let len = value.len();
        let mut out = self.send_res_head(len);
        out.append(value);
        out.append("\n");
        proof {
            assert(out@ =~= spec_res_head(
                self.status,
                self.content_type,
                self.header.entries_view(),
                len as int,
            ) + value@ + "\n"@);
        }
        out
    }
}

impl Default for HttpResponse {
    /// Same as `HttpResponse::new`.
    fn default() -> (r: Self)
        ensures
            r.status == Status::OK,
            r.content_type == MimeType::TextHtml,
            r.header@ == Map::<Seq<char>, Seq<char>>::empty(),
            r.header.wf(),
    {
        HttpResponse::new()
    }
}

} // verus!
