//! The SPA server: routing is bypassed and every request is rewritten
//! against a single entry point. A request whose extension resolves (with a
//! `text/html` default) to `text/html` — in particular any path without a
//! known asset extension — serves the entry's `index.html`; any other
//! request passes through to `entry + path`.

use vstd::prelude::*;
use vstd::string::*;
use crate::content_type::{content_type_of, ContentType};
use crate::serwer::SerwerTrait;
use crate::text::{ends_with, lemma_ends_with_concat, lemma_suffix_excludes};

verus! {

broadcast use vstd::string::group_string_axioms;

/// The path actually served for a request for `url` against `entry`.
pub open spec fn spa_target(entry: Seq<char>, url: Seq<char>) -> Seq<char> {
    if content_type_of(url, ContentType::TextHtml) == ContentType::TextHtml {
        entry + "/index.html"@
    } else {
        entry + url
    }
}

/// The content type sent with the served file: recomputed from the full
/// target path, defaulting to plain text.
pub open spec fn spa_content_type(entry: Seq<char>, url: Seq<char>) -> ContentType {
    content_type_of(spa_target(entry, url), ContentType::TextPlain)
}

/// A server that rewrites every request to a single-page application entry.
pub struct SpaSerwer {
    pub addr: String,
    pub entry: String,
}

impl SpaSerwer {
    /// A SPA server on the default address, serving from the working
    /// directory.
    pub fn new() -> (r: Self)
        ensures
            r.addr@ == "127.0.0.1:3000"@,
            r.entry@ == "."@,
    {
        SpaSerwer { addr: String::from_str("127.0.0.1:3000"), entry: String::from_str(".") }
    }

    /// Point the server at its entry directory.
    pub fn set_entry_point(&mut self, entry: String)
        ensures
            final(self).entry == entry,
            final(self).addr == old(self).addr,
    {
        self.entry = entry;
    }

    /// Replace the listen address, keeping the entry.
    pub fn set_addr(&mut self, addr: String)
        ensures
            final(self).addr == addr,
            final(self).entry == old(self).entry,
    {
        self.addr = addr;
    }

    /// Rewrite a request: the path to serve and the content type to send
    /// with it. The caller reads the file and hands the outcome to
    /// `file_response`.
    pub fn resolve(&self, url: &str) -> (r: (String, ContentType))
        ensures
            r.0@ == spa_target(self.entry@, url@),
            r.1 == spa_content_type(self.entry@, url@),
    {
        let content_type = ContentType::from_file_ext_or(url, ContentType::TextHtml);
        let target = if content_type == ContentType::TextHtml {
            self.entry.clone().concat("/index.html")
        } else {
            self.entry.clone().concat(url)
        };
        let served = ContentType::from_file_ext(target.as_str());
        (target, served)
    }
}

/// Law: a request whose path resolves, with the `text/html` default, to
/// `text/html` — in particular any path without a known asset extension —
/// serves the entry's `index.html`, whatever the entry.
pub proof fn lemma_spa_html_serves_entry(entry: Seq<char>, url: Seq<char>)
    requires
        content_type_of(url, ContentType::TextHtml) == ContentType::TextHtml,
    ensures
        spa_target(entry, url) == entry + "/index.html"@,
{
}

/// Law: an asset request passes through. A path ending in `.js` is served
/// from `entry + path`, with the JavaScript content type, whatever the
/// entry.
pub proof fn lemma_spa_asset_passthrough(entry: Seq<char>, url: Seq<char>)
    requires
        ends_with(url, ".js"@),
    ensures
        spa_target(entry, url) == entry + url,
        spa_content_type(entry, url) == ContentType::ApplicationJavascript,
{
    reveal_strlit(".js");
    reveal_strlit(".css");
    reveal_strlit(".html");
    reveal_strlit(".xml");
    reveal_strlit(".json");
    lemma_suffix_excludes(url, ".js"@, ".css"@, 0);
    lemma_suffix_excludes(url, ".js"@, ".html"@, 0);
    lemma_suffix_excludes(url, ".js"@, ".xml"@, 0);
    lemma_suffix_excludes(url, ".js"@, ".json"@, 0);
    assert(content_type_of(url, ContentType::TextHtml) == ContentType::ApplicationJavascript);
    let t = entry + url;
    lemma_ends_with_concat(entry, url, ".js"@);
    lemma_suffix_excludes(t, ".js"@, ".css"@, 0);
    lemma_suffix_excludes(t, ".js"@, ".html"@, 0);
    lemma_suffix_excludes(t, ".js"@, ".xml"@, 0);
    lemma_suffix_excludes(t, ".js"@, ".json"@, 0);
}

impl SerwerTrait for SpaSerwer {
    open spec fn spec_addr(&self) -> Seq<char> {
        self.addr@
    }

    fn with_addr(&mut self, addr: String)
        ensures
            final(self).entry == old(self).entry,
    {
        self.addr = addr;
    }
}

} // verus!
