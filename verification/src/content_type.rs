//! Mapping from a file extension to a MIME content type, with a
//! caller-supplied default.

use vstd::prelude::*;
use crate::text::{ends_with, str_ends_with};

verus! {

broadcast use vstd::string::group_string_axioms;

/// A MIME content type known to the server.
#[derive(Default, PartialEq, Eq, Structural, Clone, Copy, Debug)]
pub enum ContentType {
    #[default]
    TextPlain,
    TextCss,
    TextHtml,
    TextXml,
    ApplicationJson,
    ApplicationJavascript,
}

/// The content type selected by the extension of `path`, or `default` when no
/// known extension matches.
pub open spec fn content_type_of(path: Seq<char>, default: ContentType) -> ContentType {
    if ends_with(path, ".css"@) {
        ContentType::TextCss
    } else if ends_with(path, ".html"@) {
        ContentType::TextHtml
    } else if ends_with(path, ".xml"@) {
        ContentType::TextXml
    } else if ends_with(path, ".json"@) {
        ContentType::ApplicationJson
    } else if ends_with(path, ".js"@) {
        ContentType::ApplicationJavascript
    } else if ends_with(path, ".txt"@) {
        ContentType::TextPlain
    } else {
        default
    }
}

/// The MIME string of each content type.
pub open spec fn mime_chars(t: ContentType) -> Seq<char> {
    match t {
        ContentType::TextPlain => "text/plain"@,
        ContentType::TextCss => "text/css"@,
        ContentType::TextHtml => "text/html"@,
        ContentType::TextXml => "text/xml"@,
        ContentType::ApplicationJson => "application/json"@,
        ContentType::ApplicationJavascript => "application/javascript"@,
    }
}

impl ContentType {
    /// The content type for the extension of `path`, falling back to `default`.
    pub fn from_file_ext_or(path: &str, default: ContentType) -> (r: ContentType)
        ensures
            r == content_type_of(path@, default),
    {
        if str_ends_with(path, ".css") {
            ContentType::TextCss
        } else if str_ends_with(path, ".html") {
            ContentType::TextHtml
        } else if str_ends_with(path, ".xml") {
            ContentType::TextXml
        } else if str_ends_with(path, ".json") {
            ContentType::ApplicationJson
        } else if str_ends_with(path, ".js") {
            ContentType::ApplicationJavascript
        } else if str_ends_with(path, ".txt") {
            ContentType::TextPlain
        } else {
            default
        }
    }

    /// The content type for the extension of `path`, defaulting to plain text.
    pub fn from_file_ext(path: &str) -> (r: ContentType)
        ensures
            r == content_type_of(path@, ContentType::TextPlain),
    {
        Self::from_file_ext_or(path, ContentType::TextPlain)
    }

    /// The MIME string sent on the wire for this content type.
    pub fn to_string(&self) -> (r: &'static str)
        ensures
            r@ == mime_chars(*self),
            r.is_ascii(),
    {
        proof {
            reveal_strlit("text/plain");
            reveal_strlit("text/css");
            reveal_strlit("text/html");
            reveal_strlit("text/xml");
            reveal_strlit("application/json");
            reveal_strlit("application/javascript");
        }
        match self {
            ContentType::TextPlain => "text/plain",
            ContentType::TextCss => "text/css",
            ContentType::TextHtml => "text/html",
            ContentType::TextXml => "text/xml",
            ContentType::ApplicationJson => "application/json",
            ContentType::ApplicationJavascript => "application/javascript",
        }
    }
}

} // verus!
