//! Response serialization: one status line, a `Content-Length` header, an
//! optional `Content-Type` header, a blank line, then the raw body bytes.

use vstd::prelude::*;
use vstd::string::*;
use crate::content_type::{ContentType, mime_chars};
use crate::status::{Status, not_found_status, ok_status};
use crate::text::{ascii_bytes, dec_bytes, push_ascii, push_bytes, push_dec};

verus! {

broadcast use vstd::string::group_string_axioms;

/// The optional MIME string carried by a response.
pub open spec fn ct_chars(t: Option<ContentType>) -> Option<Seq<char>> {
    match t {
        Some(t) => Some(mime_chars(t)),
        None => None,
    }
}

/// The serialized wire form of a response: the status line, then
/// `\nContent-Length: <n>`, then `\nContent-Type:<t>` when a content type is
/// set, then a blank line, then the body bytes, verbatim.
pub open spec fn response_bytes(
    status: Seq<char>,
    content_type: Option<Seq<char>>,
    body: Seq<u8>,
) -> Seq<u8> {
    ascii_bytes(status) + ascii_bytes("\nContent-Length: "@) + dec_bytes(body.len()) + (
    match content_type {
        Some(t) => ascii_bytes("\nContent-Type:"@) + ascii_bytes(t),
        None => Seq::<u8>::empty(),
    }) + ascii_bytes("\n\n"@) + body
}

/// Serialization core of the response writer. The connection itself stays
/// with the caller; `send` hands back the bytes to write.
pub struct Response<'a> {
    pub status: &'a str,
    pub content_type: Option<ContentType>,
}

impl<'a> Response<'a> {
    /// The status line must be plain ASCII, as every status line of this
    /// protocol is.
    pub open spec fn wf(self) -> bool {
        vstd::string::is_ascii(self.status)
    }

    /// A response with the given content type and status line.
    pub fn new(content_type: Option<ContentType>, status: &'a str) -> (r: Self)
        requires
            status.is_ascii(),
        ensures
            r.status@ == status@,
            r.content_type == content_type,
            r.wf(),
    {
        Response { status, content_type }
    }

    /// A `200 OK` response with the given content type.
    pub fn new_ok(content_type: ContentType) -> (r: Self)
        ensures
            r.status@ == ok_status(),
            r.content_type == Some(content_type),
            r.wf(),
    {
        Response { status: Status::ok(), content_type: Some(content_type) }
    }

    /// Replace the status line.
    pub fn set_status_line(&mut self, status: &'a str)
        requires
            status.is_ascii(),
        ensures
            final(self).status@ == status@,
            final(self).content_type == old(self).content_type,
            final(self).wf(),
    {
        self.status = status;
    }

    /// Replace the status line, leaving the content type as it is.
    pub fn set_status_content_type(&mut self, status: &'a str)
        requires
            status.is_ascii(),
        ensures
            final(self).status@ == status@,
            final(self).content_type == old(self).content_type,
            final(self).wf(),
    {
        self.status = status;
    }

    /// Serialize the response around `body`. The result is the exact byte
    /// sequence to write on the connection, after which the connection is
    /// done: no chunking, no keep-alive.
    pub fn send(&self, body: &[u8]) -> (r: Vec<u8>)
        requires
            self.wf(),
        ensures
            r@ == response_bytes(self.status@, ct_chars(self.content_type), body@),
    {
        proof {
            reveal_strlit("\nContent-Length: ");
            reveal_strlit("\nContent-Type:");
            reveal_strlit("\n\n");
        }
        let mut out: Vec<u8> = Vec::new();
        push_ascii(&mut out, self.status);
        push_ascii(&mut out, "\nContent-Length: ");
        push_dec(&mut out, body.len() as u64);
        match self.content_type {
            Some(t) => {
                push_ascii(&mut out, "\nContent-Type:");
                push_ascii(&mut out, t.to_string());
            },
            None => {},
        }
        push_ascii(&mut out, "\n\n");
        push_bytes(&mut out, body);
        proof {
            assert(out@ =~= response_bytes(self.status@, ct_chars(self.content_type), body@));
        }
        out
    }
}

/// The wire form begins with the status line and ends with the body,
/// verbatim: the header neither disturbs nor truncates what the handler or
/// the file supplied.
pub proof fn lemma_response_extremes(status: Seq<char>, ct: Option<Seq<char>>, body: Seq<u8>)
    ensures
        response_bytes(status, ct, body).len() >= status.len() + body.len(),
        response_bytes(status, ct, body).take(status.len() as int) == ascii_bytes(status),
        response_bytes(status, ct, body).skip(
            response_bytes(status, ct, body).len() - body.len(),
        ) == body,
{
    let r = response_bytes(status, ct, body);
    assert(r.take(status.len() as int) =~= ascii_bytes(status));
    assert(r.skip(r.len() - body.len()) =~= body);
}

/// The characters of the fixed page served when every resolution step fails.
pub open spec fn page_404_chars() -> Seq<char> {
    "\n<!DOCTYPE html>\n<html lang=\"en\">\n<head>\n    <meta charset=\"UTF-8\">\n    <meta name=\"viewport\" content=\"width=device-width, initial-scale=1.0\">\n    <title>Document</title>\n</head>\n<body>\n    <h1>Simple HTTP</h1>\n    <p>404</p>\n</body>\n</html>"@
}

/// The fixed page served when every resolution step fails.
pub fn page_404() -> (r: &'static str)
    ensures
        r@ == page_404_chars(),
        r.is_ascii(),
{
    proof {
        reveal_strlit(
            "\n<!DOCTYPE html>\n<html lang=\"en\">\n<head>\n    <meta charset=\"UTF-8\">\n    <meta name=\"viewport\" content=\"width=device-width, initial-scale=1.0\">\n    <title>Document</title>\n</head>\n<body>\n    <h1>Simple HTTP</h1>\n    <p>404</p>\n</body>\n</html>",
        );
    }
    "\n<!DOCTYPE html>\n<html lang=\"en\">\n<head>\n    <meta charset=\"UTF-8\">\n    <meta name=\"viewport\" content=\"width=device-width, initial-scale=1.0\">\n    <title>Document</title>\n</head>\n<body>\n    <h1>Simple HTTP</h1>\n    <p>404</p>\n</body>\n</html>"
}

/// The full wire form of the fixed not-found response: status `404 Not
/// Found`, no content type, the fixed page as body.
pub open spec fn err404_bytes() -> Seq<u8> {
    response_bytes(not_found_status(), None, ascii_bytes(page_404_chars()))
}

/// The fixed not-found response. Every in-protocol failure surfaces as these
/// bytes and nothing else.
pub fn err404() -> (r: Vec<u8>)
    ensures
        r@ == err404_bytes(),
{
    let page = page_404();
    let resp = Response { status: Status::not_found(), content_type: None };
    let body = page.as_bytes();
    proof {
        assert(body@ =~= ascii_bytes(page_404_chars()));
    }
    resp.send(body)
}

} // verus!
