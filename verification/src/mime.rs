//! The closed enumeration of supported content types.

use vstd::prelude::*;

verus! {

/// The media types a response can declare; the default is `TextHtml`.
#[derive(Clone, Copy, Debug, PartialEq, Eq, Structural)]
pub enum MimeType {
    TextPlain,
    TextHtml,
    ImageJpg,
    ImagePng,
    VideoMp4,
    ApplicationJson,
    ApplicationPdf,
}

impl MimeType {
    /// The canonical media-type string of this content type.
    pub open spec fn spec_wire(self) -> Seq<char> {
        match self {
            MimeType::TextPlain => "text/plain"@,
            MimeType::TextHtml => "text/html"@,
            MimeType::ImageJpg => "image/jpeg"@,
            MimeType::ImagePng => "image/png"@,
            MimeType::VideoMp4 => "video/mp4"@,
            MimeType::ApplicationJson => "application/json"@,
            MimeType::ApplicationPdf => "application/pdf"@,
        }
    }

    /// The canonical media-type string, as an owned string.
    pub fn wire_string(&self) -> (r: String)
        ensures
            r@ == self.spec_wire(),
    {
        match self {
            MimeType::TextPlain => String::from_str("text/plain"),
            MimeType::TextHtml => String::from_str("text/html"),
            MimeType::ImageJpg => String::from_str("image/jpeg"),
            MimeType::ImagePng => String::from_str("image/png"),
            MimeType::VideoMp4 => String::from_str("video/mp4"),
            MimeType::ApplicationJson => String::from_str("application/json"),
            MimeType::ApplicationPdf => String::from_str("application/pdf"),
        }
    }
}

impl Default for MimeType {
    /// A fresh response is served as `text/html`.
    fn default() -> (r: Self)
        ensures
            r == MimeType::TextHtml,
    {
        MimeType::TextHtml
    }
}

} // verus!
