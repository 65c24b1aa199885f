//! The closed set of request methods and the classification of method tokens.

use vstd::prelude::*;
use crate::text::str_eq;

verus! {

broadcast use vstd::string::group_string_axioms;

/// A request method. The set is closed: only these two verbs are routed.
#[derive(PartialEq, Eq, Structural, Hash, Clone, Copy, Debug)]
pub enum Method {
    Get,
    Post,
}

/// The method tokens accepted as a GET request.
pub open spec fn spells_get(s: Seq<char>) -> bool {
    s == "Get"@ || s == "GET"@ || s == "get"@
}

/// The method tokens accepted as a POST request.
pub open spec fn spells_post(s: Seq<char>) -> bool {
    s == "Post"@ || s == "POST"@ || s == "post"@
}

impl Method {
    /// Classify a method token. An unrecognized verb is a recoverable
    /// per-connection parse failure, never a crash.
    pub fn from_str(method: &str) -> (r: Option<Method>)
        ensures
            r == Some(Method::Get) <==> spells_get(method@),
            r == Some(Method::Post) <==> spells_post(method@),
            r is None <==> !spells_get(method@) && !spells_post(method@),
    {
        proof {
            reveal_strlit("Get");
            reveal_strlit("GET");
            reveal_strlit("get");
            reveal_strlit("Post");
            reveal_strlit("POST");
            reveal_strlit("post");
            assert("Get"@.len() == 3 && "GET"@.len() == 3 && "get"@.len() == 3);
            assert("Post"@.len() == 4 && "POST"@.len() == 4 && "post"@.len() == 4);
        }
        if str_eq(method, "Get") || str_eq(method, "GET") || str_eq(method, "get") {
            Some(Method::Get)
        } else if str_eq(method, "Post") || str_eq(method, "POST") || str_eq(method, "post") {
            Some(Method::Post)
        } else {
            None
        }
    }
}

} // verus!
