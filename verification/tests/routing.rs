use simple_http::content_type::ContentType;
use simple_http::method::Method;
use simple_http::response::{err404, page_404, Response};
use simple_http::serwer::{
    file_response, path_extension, path_is_script, script_response, Dispatch, FallbackPlan,
    Serwer,
};

#[test]
fn registered_route_wins_regardless_of_fallback_config() {
    // The same route table, under every fallback configuration, dispatches
    // to the same handler, and the handler's response carries its exact body
    // with status 200.
    for (root, allow) in [
        (None, false),
        (None, true),
        (Some("web".to_string()), false),
        (Some("web".to_string()), true),
    ] {
        let mut serwer: Serwer<u32> = Serwer::new();
        serwer.set_path_search(root);
        serwer.set_allow_php(allow);
        serwer.add_endpoint(Method::Get, "/", 7);
        assert_eq!(serwer.find_route(Method::Get, "/"), Some(&7));

        let body = b"hello from the handler";
        let bytes = Response::new_ok(ContentType::TextPlain).send(body);
        assert!(bytes.starts_with(b"HTTP/1.1 200 OK\n"));
        assert!(bytes.ends_with(body));
    }
}

#[test]
fn first_matching_route_is_chosen() {
    let mut serwer: Serwer<u32> = Serwer::new();
    serwer.add_endpoint(Method::Get, "/a", 1);
    serwer.add_endpoint(Method::Get, "/a", 2);
    serwer.add_endpoint(Method::Get, "/b", 3);
    assert_eq!(serwer.find_route(Method::Get, "/a"), Some(&1));
    assert_eq!(serwer.find_route(Method::Get, "/b"), Some(&3));
}

#[test]
fn lookup_is_exact_and_per_method() {
    let mut serwer: Serwer<u32> = Serwer::new();
    serwer.add_endpoint(Method::Get, "/a", 1);
    serwer.add_endpoint(Method::Post, "/p", 2);
    assert_eq!(serwer.find_route(Method::Post, "/a"), None);
    assert_eq!(serwer.find_route(Method::Get, "/p"), None);
    assert_eq!(serwer.find_route(Method::Get, "/a/"), None);
    assert_eq!(serwer.find_route(Method::Get, "/a?q=1"), None);
    assert_eq!(serwer.find_route(Method::Post, "/p"), Some(&2));
}

#[test]
fn css_file_is_served_with_its_type_and_length() {
    // A static root holding /a.css: the unmatched request resolves to the
    // file, and its bytes come back under 200 with text/css and the exact
    // byte count.
    let mut serwer: Serwer<u32> = Serwer::new();
    serwer.set_path_search(Some("web".to_string()));
    assert_eq!(serwer.find_route(Method::Get, "/a.css"), None);
    match serwer.fallback_plan("/a.css") {
        FallbackPlan::ServeFile { path, content_type } => {
            assert_eq!(path, "web/a.css");
            assert_eq!(content_type, ContentType::TextCss);
            let body = b"h1 { color: blue }".to_vec();
            let bytes = file_response(Some(body.clone()), content_type);
            let expected = format!(
                "HTTP/1.1 200 OK\nContent-Length: {}\nContent-Type:text/css\n\nh1 {{ color: blue }}",
                body.len()
            );
            assert_eq!(bytes, expected.into_bytes());
        }
        _ => panic!("expected a file plan"),
    }
}

#[test]
fn missing_file_falls_back_to_the_fixed_404() {
    let mut serwer: Serwer<u32> = Serwer::new();
    serwer.set_path_search(Some("web".to_string()));
    match serwer.fallback_plan("/gone.css") {
        FallbackPlan::ServeFile { content_type, .. } => {
            // The read failed: the response is the fixed not-found page.
            assert_eq!(file_response(None, content_type), err404());
        }
        _ => panic!("expected a file plan"),
    }
}

#[test]
fn no_root_disables_the_fallback() {
    // With no static root and no matching route, any unmatched path gets
    // status 404 and the fixed HTML body.
    let serwer: Serwer<u32> = Serwer::new();
    for url in ["/", "/missing", "/a.css", "/x.php"] {
        assert_eq!(serwer.find_route(Method::Get, url), None);
        assert!(matches!(
            serwer.fallback_plan(url),
            FallbackPlan::Disabled
        ));
    }
    let bytes = err404();
    assert!(bytes.starts_with(b"HTTP/1.1 404 Not Found\n"));
    assert!(bytes.ends_with(page_404().as_bytes()));
}

#[test]
fn script_with_execution_enabled_runs_the_interpreter() {
    let mut serwer: Serwer<u32> = Serwer::new();
    serwer.set_path_search(Some("web".to_string()));
    serwer.set_allow_php(true);
    match serwer.fallback_plan("/page.php") {
        FallbackPlan::RunScript { path } => {
            assert_eq!(path, "web/page.php");
            // Successful execution: stdout becomes a text/html body.
            let out = b"<b>ran</b>".to_vec();
            let bytes = script_response(Some(out));
            assert_eq!(
                bytes,
                b"HTTP/1.1 200 OK\nContent-Length: 10\nContent-Type:text/html\n\n<b>ran</b>"
                    .to_vec()
            );
            // Failed execution never serves the source: fixed 404 instead.
            assert_eq!(script_response(None), err404());
        }
        _ => panic!("expected a script plan"),
    }
}

#[test]
fn script_with_execution_disabled_never_serves_the_source() {
    let mut serwer: Serwer<u32> = Serwer::new();
    serwer.set_path_search(Some("web".to_string()));
    serwer.set_allow_php(false);
    for url in ["/page.php", "/PAGE.PHP", "/dir/app.PhP"] {
        match serwer.fallback_plan(url) {
            FallbackPlan::ScriptDisabled { path } => {
                assert!(path.starts_with("web/"));
            }
            other => panic!("script request must not be served: {:?}", plan_name(&other)),
        }
    }
}

#[test]
fn extension_detection_matches_the_final_component() {
    assert_eq!(path_extension("/a.tar.gz"), Some("gz"));
    assert_eq!(path_extension("/dir.d/file"), None);
    assert_eq!(path_extension("/.php"), None);
    assert_eq!(path_extension("a."), Some(""));
    assert!(path_is_script("x/y.php"));
    assert!(path_is_script("x/y.PHP"));
    assert!(!path_is_script("x/.php"));
    assert!(!path_is_script("x/y.php.txt"));
}

#[test]
fn dispatch_prefers_routes_over_the_fallback() {
    let mut serwer: Serwer<u32> = Serwer::new();
    serwer.set_path_search(Some("web".to_string()));
    serwer.add_endpoint(Method::Get, "/a.css", 9);
    match serwer.dispatch(Method::Get, "/a.css") {
        Dispatch::Handler(h) => assert_eq!(h, &9),
        Dispatch::Fallback(_) => panic!("a registered route must win"),
    }
    match serwer.dispatch(Method::Get, "/b.css") {
        Dispatch::Fallback(FallbackPlan::ServeFile { path, content_type }) => {
            assert_eq!(path, "web/b.css");
            assert_eq!(content_type, ContentType::TextCss);
        }
        _ => panic!("an unmatched path must reach the fallback"),
    }
}

fn plan_name(p: &FallbackPlan) -> &'static str {
    match p {
        FallbackPlan::Disabled => "disabled",
        FallbackPlan::ScriptDisabled { .. } => "script-disabled",
        FallbackPlan::RunScript { .. } => "run-script",
        FallbackPlan::ServeFile { .. } => "serve-file",
    }
}
