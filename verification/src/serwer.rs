//! The routed server: an immutable route table built before listening, and
//! the fallback chain (static file, optional script execution, fixed 404)
//! entered when no route matches. The decisions are made here; the listener,
//! the file reads and the interpreter process live with the caller, which
//! hands their outcomes back to `file_response` and `script_response`.

use vstd::prelude::*;
use vstd::string::*;
use crate::content_type::{content_type_of, mime_chars, ContentType};
use crate::method::Method;
use crate::response::{
    err404, err404_bytes, lemma_response_extremes, page_404_chars, response_bytes, Response,
};
use crate::spa_serwer::SpaSerwer;
use crate::status::{not_found_status, ok_status};
use crate::text::{ascii_bytes, dec_chars, dec_string, last_index_of_char, rfind_char, str_eq};

verus! {

broadcast use vstd::string::group_string_axioms;

/// Servers that can be pointed at a listen address.
pub trait SerwerTrait {
    /// The configured listen address.
    spec fn spec_addr(&self) -> Seq<char>;

    /// Replace the listen address.
    fn with_addr(&mut self, addr: String)
        ensures
            final(self).spec_addr() == addr@,
    ;

    /// Listen on the loopback interface at `port`.
    fn with_port(&mut self, port: u16)
        ensures
            final(self).spec_addr() == "127.0.0.1:"@ + dec_chars(port as nat),
    {
        let addr = addr_for_port(port);
        self.with_addr(addr);
    }
}

/// The loopback address string for a port.
pub fn addr_for_port(port: u16) -> (r: String)
    ensures
        r@ == "127.0.0.1:"@ + dec_chars(port as nat),
{
    let mut s = String::from_str("127.0.0.1:");
    let digits = dec_string(port as u64);
    s.append(digits.as_str());
    s
}

/// The start of a path's final component: just after the last separator.
pub open spec fn component_start(path: Seq<char>) -> int {
    last_index_of_char(path, '/') + 1
}

/// The extension of a path: what follows the last dot, when that dot stands
/// strictly inside the final component. A name that starts with its only dot
/// has no extension.
pub open spec fn extension_of(path: Seq<char>) -> Option<Seq<char>> {
    let d = last_index_of_char(path, '.');
    if d > component_start(path) {
        Some(path.skip(d + 1))
    } else {
        None
    }
}

/// The extension of `path`, when it has one.
pub fn path_extension<'p>(path: &'p str) -> (r: Option<&'p str>)
    ensures
        match r {
            Some(e) => extension_of(path@) == Some(e@),
            None => extension_of(path@) is None,
        },
{
    let len = path.unicode_len();
    proof {
        crate::text::lemma_last_index_bounds(path@, '/');
    }
    let d = match rfind_char(path, '.') {
        None => {
            return None;
        },
        Some(d) => d,
    };
    let cs = match rfind_char(path, '/') {
        None => 0usize,
        Some(s) => s + 1,
    };
    if d > cs {
        Some(path.substring_char(d + 1, len))
    } else {
        None
    }
}

/// Is `e` the script extension, compared without regard to ASCII case?
pub open spec fn is_php_ext(e: Seq<char>) -> bool {
    e.len() == 3 && (e[0] == 'p' || e[0] == 'P') && (e[1] == 'h' || e[1] == 'H') && (e[2] == 'p'
        || e[2] == 'P')
}

/// Does the extension of `path` denote a server-side script?
pub open spec fn is_script_path(path: Seq<char>) -> bool {
    match extension_of(path) {
        Some(e) => is_php_ext(e),
        None => false,
    }
}

/// Decide whether `path` names a server-side script.
pub fn path_is_script(path: &str) -> (r: bool)
    ensures
        r == is_script_path(path@),
{
    match path_extension(path) {
        None => false,
        Some(e) => {
            if e.unicode_len() != 3 {
                return false;
            }
            let c0 = e.get_char(0);
            let c1 = e.get_char(1);
            let c2 = e.get_char(2);
            (c0 == 'p' || c0 == 'P') && (c1 == 'h' || c1 == 'H') && (c2 == 'p' || c2 == 'P')
        },
    }
}

/// A static route: an exact path bound to a handler.
pub struct Endpoint<H> {
    pub path: &'static str,
    pub handler: H,
}

/// Index of the first route whose path equals `url`; -1 when none matches.
pub open spec fn first_match<H>(routes: Seq<Endpoint<H>>, url: Seq<char>) -> int
    decreases routes.len(),
{
    if routes.len() == 0 {
        -1
    } else if routes[0].path@ == url {
        0
    } else {
        let rest = first_match(routes.drop_first(), url);
        if rest == -1 {
            -1
        } else {
            rest + 1
        }
    }
}

/// `first_match` finds the first matching route, and -1 exactly when no route
/// matches.
pub proof fn lemma_first_match_properties<H>(routes: Seq<Endpoint<H>>, url: Seq<char>)
    ensures
        first_match(routes, url) == -1 ==> forall|i: int|
            0 <= i < routes.len() ==> routes[i].path@ != url,
        first_match(routes, url) != -1 ==> {
            let k = first_match(routes, url);
            0 <= k < routes.len() && routes[k].path@ == url && forall|i: int|
                0 <= i < k ==> routes[i].path@ != url
        },
    decreases routes.len(),
{
    if routes.len() > 0 && routes[0].path@ != url {
        lemma_first_match_properties(routes.drop_first(), url);
        assert(forall|i: int|
            1 <= i < routes.len() ==> routes[i].path@ == routes.drop_first()[i - 1].path@);
    }
}

proof fn lemma_first_match_hit<H>(routes: Seq<Endpoint<H>>, url: Seq<char>, k: int)
    requires
        0 <= k < routes.len(),
        routes[k].path@ == url,
        forall|i: int| 0 <= i < k ==> routes[i].path@ != url,
    ensures
        first_match(routes, url) == k,
    decreases routes.len(),
{
    if k > 0 {
        lemma_first_match_hit(routes.drop_first(), url, k - 1);
    }
}

/// The routed server: a fixed route table per method, an optional static
/// root, and the script-execution switch.
pub struct Serwer<H> {
    pub addr: String,
    pub get_routes: Vec<Endpoint<H>>,
    pub post_routes: Vec<Endpoint<H>>,
    pub path_search: Option<String>,
    pub allow_php_exec: bool,
}

/// What the fallback chain decided for a request that no route matched.
pub enum FallbackPlan {
    /// No static root is configured: nothing to resolve against.
    Disabled,
    /// The path names a script and execution is off. The raw source is never
    /// served; this resolves to the fixed not-found response.
    ScriptDisabled { path: String },
    /// Run the interpreter on `path`; its standard output becomes a
    /// `text/html` body on success.
    RunScript { path: String },
    /// Read `path` and serve its bytes with the content type of its
    /// extension, defaulting to plain text.
    ServeFile { path: String, content_type: ContentType },
}

/// The fallback decision owed to a request for `url` against a static root
/// and script-execution switch: exactly one variant fits.
pub open spec fn plan_matches(
    root: Option<Seq<char>>,
    allow_script: bool,
    url: Seq<char>,
    r: FallbackPlan,
) -> bool {
    match r {
        FallbackPlan::Disabled => root is None,
        FallbackPlan::ScriptDisabled { path } => root matches Some(rt) && path@ == rt + url
            && is_script_path(path@) && !allow_script,
        FallbackPlan::RunScript { path } => root matches Some(rt) && path@ == rt + url
            && is_script_path(path@) && allow_script,
        FallbackPlan::ServeFile { path, content_type } => root matches Some(rt) && path@ == rt
            + url && !is_script_path(path@) && content_type == content_type_of(
            path@,
            ContentType::TextPlain,
        ),
    }
}

impl<H> Serwer<H> {
    /// The routes registered for a method.
    pub open spec fn routes_of(self, m: Method) -> Seq<Endpoint<H>> {
        if m == Method::Get {
            self.get_routes@
        } else {
            self.post_routes@
        }
    }

    /// The configured static root, when there is one.
    pub open spec fn spec_root(self) -> Option<Seq<char>> {
        match self.path_search {
            Some(s) => Some(s@),
            None => None,
        }
    }

    /// A server on the default address, with no routes, no static root and
    /// script execution switched on.
    pub fn new() -> (r: Self)
        ensures
            r.addr@ == "127.0.0.1:8080"@,
            r.get_routes@ =~= Seq::<Endpoint<H>>::empty(),
            r.post_routes@ =~= Seq::<Endpoint<H>>::empty(),
            r.path_search is None,
            r.allow_php_exec,
    {
        Serwer {
            addr: String::from_str("127.0.0.1:8080"),
            get_routes: Vec::new(),
            post_routes: Vec::new(),
            path_search: None,
            allow_php_exec: true,
        }
    }

    /// Configure (or clear) the static root of the fallback chain.
    pub fn set_path_search(&mut self, path: Option<String>)
        ensures
            final(self).path_search == path,
            final(self).addr == old(self).addr,
            final(self).get_routes == old(self).get_routes,
            final(self).post_routes == old(self).post_routes,
            final(self).allow_php_exec == old(self).allow_php_exec,
    {
        self.path_search = path;
    }

    /// Switch script execution on or off.
    pub fn set_allow_php(&mut self, allow: bool)
        ensures
            final(self).allow_php_exec == allow,
            final(self).addr == old(self).addr,
            final(self).get_routes == old(self).get_routes,
            final(self).post_routes == old(self).post_routes,
            final(self).path_search == old(self).path_search,
    {
        self.allow_php_exec = allow;
    }

    /// Register a route. Routes are looked up in registration order.
    pub fn add_endpoint(&mut self, metod: Method, path: &'static str, handler: H)
        ensures
            final(self).routes_of(metod) == old(self).routes_of(metod).push(
                Endpoint { path, handler },
            ),
            metod == Method::Get ==> final(self).post_routes == old(self).post_routes,
            metod != Method::Get ==> final(self).get_routes == old(self).get_routes,
            final(self).addr == old(self).addr,
            final(self).path_search == old(self).path_search,
            final(self).allow_php_exec == old(self).allow_php_exec,
    {
        match metod {
            Method::Get => self.get_routes.push(Endpoint { path, handler }),
            Method::Post => self.post_routes.push(Endpoint { path, handler }),
        }
    }

    /// Look up the handler of the first route of `metod` whose path equals
    /// `url` exactly; no pattern matching, no query stripping.
    pub fn find_route<'s>(&'s self, metod: Method, url: &str) -> (r: Option<&'s H>)
        ensures
            match r {
                Some(h) => first_match(self.routes_of(metod), url@) >= 0 && *h == self.routes_of(
                    metod,
                )[first_match(self.routes_of(metod), url@)].handler,
                None => first_match(self.routes_of(metod), url@) == -1,
            },
    {
        let routes = match metod {
            Method::Get => &self.get_routes,
            Method::Post => &self.post_routes,
        };
        let len = routes.len();
        let mut i: usize = 0;
        while i < len
            invariant
                len == routes@.len(),
                routes@ == self.routes_of(metod),
                i <= len,
                forall|j: int| 0 <= j < i ==> self.routes_of(metod)[j].path@ != url@,
            decreases len - i,
        {
            if str_eq(routes[i].path, url) {
                proof {
                    lemma_first_match_hit(self.routes_of(metod), url@, i as int);
                }
                return Some(&routes[i].handler);
            }
            i += 1;
        }
        proof {
            lemma_first_match_properties(self.routes_of(metod), url@);
            if first_match(self.routes_of(metod), url@) != -1 {
                assert(false);
            }
        }
        None
    }

    /// Decide the fallback for a request that no route matched. Nothing is
    /// read or run here; the caller performs the plan and hands the outcome
    /// to `file_response` or `script_response`.
    pub fn fallback_plan(&self, url: &str) -> (r: FallbackPlan)
        ensures
            plan_matches(self.spec_root(), self.allow_php_exec, url@, r),
    {
        let root = match &self.path_search {
            None => {
                return FallbackPlan::Disabled;
            },
            Some(root) => root,
        };
        let path = root.clone().concat(url);
        let script = path_is_script(path.as_str());
        if script && self.allow_php_exec {
            FallbackPlan::RunScript { path }
        } else if script {
            FallbackPlan::ScriptDisabled { path }
        } else {
            let content_type = ContentType::from_file_ext(path.as_str());
            FallbackPlan::ServeFile { path, content_type }
        }
    }

    /// Turn this server into an SPA server on the same address.
    pub fn into_spa(self) -> (r: SpaSerwer)
        ensures
            r.addr@ == self.addr@,
            r.entry@ == "."@,
    {
        let mut spa = SpaSerwer::new();
        spa.set_addr(self.addr);
        spa
    }
}

impl<H> SerwerTrait for Serwer<H> {
    open spec fn spec_addr(&self) -> Seq<char> {
        self.addr@
    }

    fn with_addr(&mut self, addr: String)
        ensures
            final(self).get_routes == old(self).get_routes,
            final(self).post_routes == old(self).post_routes,
            final(self).path_search == old(self).path_search,
            final(self).allow_php_exec == old(self).allow_php_exec,
    {
        self.addr = addr;
    }
}

/// What one connection's handling decides: the matched route's handler, or
/// the fallback plan when no route matches.
pub enum Dispatch<'s, H> {
    Handler(&'s H),
    Fallback(FallbackPlan),
}

impl<H> Serwer<H> {
    /// The dispatch decision for a parsed request, in precedence order:
    /// route lookup first, the fallback chain only when no route matches.
    /// Exactly one response follows from the decision.
    pub fn dispatch<'s>(&'s self, metod: Method, url: &str) -> (r: Dispatch<'s, H>)
        ensures
            match r {
                Dispatch::Handler(h) => first_match(self.routes_of(metod), url@) >= 0 && *h
                    == self.routes_of(metod)[first_match(self.routes_of(metod), url@)].handler,
                Dispatch::Fallback(plan) => first_match(self.routes_of(metod), url@) == -1
                    && plan_matches(self.spec_root(), self.allow_php_exec, url@, plan),
            },
    {
        match self.find_route(metod, url) {
            Some(h) => Dispatch::Handler(h),
            None => Dispatch::Fallback(self.fallback_plan(url)),
        }
    }
}

/// Law: a registered route wins, whatever the fallback configuration.
/// Dispatch selects the first route of the method whose path equals the
/// request path — a choice that depends on the route table alone — and the
/// `200 OK` response the handler then sends carries its exact body after
/// the header.
pub proof fn lemma_registered_route_wins<H>(s: Serwer<H>, m: Method, url: Seq<char>, body: Seq<u8>)
    requires
        exists|i: int| 0 <= i < s.routes_of(m).len() && #[trigger] s.routes_of(m)[i].path@ == url,
    ensures
        0 <= first_match(s.routes_of(m), url) < s.routes_of(m).len(),
        s.routes_of(m)[first_match(s.routes_of(m), url)].path@ == url,
        forall|i: int|
            0 <= i < first_match(s.routes_of(m), url) ==> s.routes_of(m)[i].path@ != url,
        forall|s2: Serwer<H>| #[trigger]
            s2.routes_of(m) == s.routes_of(m) ==> first_match(s2.routes_of(m), url)
                == first_match(s.routes_of(m), url),
        forall|ct: Option<Seq<char>>|
            #![trigger response_bytes(ok_status(), ct, body)]
            response_bytes(ok_status(), ct, body).skip(
                response_bytes(ok_status(), ct, body).len() - body.len(),
            ) == body && response_bytes(ok_status(), ct, body).take(ok_status().len() as int)
                == ascii_bytes(ok_status()),
{
    lemma_first_match_properties(s.routes_of(m), url);
    if first_match(s.routes_of(m), url) == -1 {
        assert(false);
    }
    assert forall|ct: Option<Seq<char>>|
        response_bytes(ok_status(), ct, body).skip(
            response_bytes(ok_status(), ct, body).len() - body.len(),
        ) == body && response_bytes(ok_status(), ct, body).take(ok_status().len() as int)
        == ascii_bytes(ok_status()) by {
        lemma_response_extremes(ok_status(), ct, body);
    }
}

/// Law: with no static root and no matching route, every request path
/// reaches the disabled fallback and nothing else, so the response is the
/// fixed not-found page: its first bytes the `404 Not Found` status line,
/// its final bytes the fixed page, exactly.
pub proof fn lemma_unmatched_without_root<H>(s: Serwer<H>, m: Method, url: Seq<char>)
    requires
        s.spec_root() is None,
        first_match(s.routes_of(m), url) == -1,
    ensures
        forall|i: int| 0 <= i < s.routes_of(m).len() ==> s.routes_of(m)[i].path@ != url,
        forall|r: FallbackPlan| #[trigger]
            plan_matches(s.spec_root(), s.allow_php_exec, url, r) ==> r is Disabled,
        err404_bytes().take(not_found_status().len() as int) == ascii_bytes(not_found_status()),
        err404_bytes().skip(err404_bytes().len() - ascii_bytes(page_404_chars()).len())
            == ascii_bytes(page_404_chars()),
{
    lemma_first_match_properties(s.routes_of(m), url);
    lemma_response_extremes(not_found_status(), None, ascii_bytes(page_404_chars()));
}

/// Law: a script-extension request never serves the script's raw source.
/// With execution disabled the only plan the contract admits is the
/// disabled-script fallback; with it enabled, running the interpreter.
/// `ServeFile` — the one plan that serves a file's bytes — is impossible
/// either way.
pub proof fn lemma_script_source_never_served(
    root: Seq<char>,
    allow_script: bool,
    url: Seq<char>,
    r: FallbackPlan,
)
    requires
        is_script_path(root + url),
        plan_matches(Some(root), allow_script, url, r),
    ensures
        !(r is ServeFile),
        !allow_script ==> r is ScriptDisabled,
        allow_script ==> r is RunScript,
{
}

/// Complete a `ServeFile` plan from the outcome of the file read: the file's
/// bytes under `200 OK` and its content type on success, the fixed not-found
/// response on any read failure.
pub fn file_response(contents: Option<Vec<u8>>, content_type: ContentType) -> (r: Vec<u8>)
    ensures
        match contents {
            Some(b) => r@ == response_bytes(ok_status(), Some(mime_chars(content_type)), b@),
            None => r@ == err404_bytes(),
        },
{
    match contents {
        Some(b) => Response::new_ok(content_type).send(b.as_slice()),
        None => err404(),
    }
}

/// Complete a `RunScript` plan from the interpreter's outcome: its standard
/// output under `200 OK` as `text/html` when the process succeeded, the fixed
/// not-found response when it could not run or exited non-zero. The script's
/// source is never the body.
pub fn script_response(output: Option<Vec<u8>>) -> (r: Vec<u8>)
    ensures
        match output {
            Some(b) => r@ == response_bytes(
                ok_status(),
                Some(mime_chars(ContentType::TextHtml)),
                b@,
            ),
            None => r@ == err404_bytes(),
        },
{
    match output {
        Some(b) => Response::new_ok(ContentType::TextHtml).send(b.as_slice()),
        None => err404(),
    }
}

} // verus!
