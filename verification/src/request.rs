//! Request-line parsing: the first line of a connection yields a method token
//! and a path; everything after the second token is ignored.

use vstd::prelude::*;
use vstd::string::*;
use crate::text::{find_char, first_index_from};
use crate::method::{Method, spells_get, spells_post};

verus! {

broadcast use vstd::string::group_string_axioms;

/// A parsed request line: the raw method token and the requested path.
#[derive(Debug)]
pub struct Request {
    pub method: String,
    pub url: String,
}

/// Why handling a connection failed before dispatch. Both cases are fatal to
/// the single connection only; the worker goes on to its next task.
#[derive(PartialEq, Eq, Structural, Clone, Copy, Debug)]
pub enum ProtocolError {
    /// The request line held fewer than two space-separated tokens.
    MalformedRequestLine,
    /// The method token named a verb outside the closed `{GET, POST}` set.
    UnsupportedMethod,
}

/// A request line is well-formed when it has at least two tokens, that is,
/// when it contains a space.
pub open spec fn has_two_tokens(line: Seq<char>) -> bool {
    first_index_from(line, ' ', 0) >= 0
}

/// The method token: everything before the first space.
pub open spec fn method_token(line: Seq<char>) -> Seq<char>
    recommends
        has_two_tokens(line),
{
    line.take(first_index_from(line, ' ', 0))
}

/// The path token: from the first space to the second space or the end.
pub open spec fn url_token(line: Seq<char>) -> Seq<char>
    recommends
        has_two_tokens(line),
{
    let i = first_index_from(line, ' ', 0);
    let j = first_index_from(line, ' ', i + 1);
    if j < 0 {
        line.skip(i + 1)
    } else {
        line.subrange(i + 1, j)
    }
}

/// Split a request line into its first two tokens. Remaining tokens, such as
/// the protocol version, are ignored.
pub fn parse_request(line: &str) -> (r: Result<Request, ProtocolError>)
    ensures
        r is Ok <==> has_two_tokens(line@),
        r matches Ok(req) ==> req.method@ == method_token(line@) && req.url@ == url_token(line@),
        r matches Err(e) ==> e == ProtocolError::MalformedRequestLine,
{
    match find_char(line, ' ', 0) {
        None => Err(ProtocolError::MalformedRequestLine),
        Some(i) => {
            let method = String::from_str(line.substring_char(0, i));
            let len = line.unicode_len();
            let url = match find_char(line, ' ', i + 1) {
                None => String::from_str(line.substring_char(i + 1, len)),
                Some(j) => String::from_str(line.substring_char(i + 1, j)),
            };
            Ok(Request { method, url })
        },
    }
}

/// The parse stage of the dispatcher: a request line yields a routed method
/// and a path, or the error that ends this connection's handling.
pub fn classify_request(line: &str) -> (r: Result<(Method, String), ProtocolError>)
    ensures
        r is Ok <==> has_two_tokens(line@) && (spells_get(method_token(line@)) || spells_post(
            method_token(line@),
        )),
        r matches Ok(p) ==> (p.0 == Method::Get <==> spells_get(method_token(line@))) && (p.0
            == Method::Post <==> spells_post(method_token(line@))) && p.1@ == url_token(line@),
        !has_two_tokens(line@) ==> r == Err::<(Method, String), _>(
            ProtocolError::MalformedRequestLine,
        ),
        has_two_tokens(line@) && !spells_get(method_token(line@)) && !spells_post(
            method_token(line@),
        ) ==> r == Err::<(Method, String), _>(ProtocolError::UnsupportedMethod),
{
    let req = match parse_request(line) {
        Ok(req) => req,
        Err(e) => {
            return Err(e);
        },
    };
    match Method::from_str(req.method.as_str()) {
        Some(m) => Ok((m, req.url)),
        None => Err(ProtocolError::UnsupportedMethod),
    }
}

} // verus!
