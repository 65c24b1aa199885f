//! The status lines the server sends.

use vstd::prelude::*;

verus! {

/// Namespace for the protocol's status lines.
#[derive(Clone, Copy)]
pub struct Status;

/// The status line of a successful response.
pub open spec fn ok_status() -> Seq<char> {
    "HTTP/1.1 200 OK"@
}

/// The status line of the fixed not-found response.
pub open spec fn not_found_status() -> Seq<char> {
    "HTTP/1.1 404 Not Found"@
}

impl Status {
    /// The `200 OK` status line.
    pub fn ok() -> (r: &'static str)
        ensures
            r@ == ok_status(),
            r.is_ascii(),
    {
        proof {
            reveal_strlit("HTTP/1.1 200 OK");
        }
        "HTTP/1.1 200 OK"
    }

    /// The `404 Not Found` status line.
    pub fn not_found() -> (r: &'static str)
        ensures
            r@ == not_found_status(),
            r.is_ascii(),
    {
        proof {
            reveal_strlit("HTTP/1.1 404 Not Found");
        }
        "HTTP/1.1 404 Not Found"
    }
}

} // verus!
