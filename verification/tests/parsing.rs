use simple_http::method::Method;
use simple_http::request::{classify_request, parse_request, ProtocolError};

#[test]
fn parses_method_and_url() {
    let req = parse_request("GET /index.html HTTP/1.1").unwrap();
    assert_eq!(req.method, "GET");
    assert_eq!(req.url, "/index.html");
}

#[test]
fn ignores_everything_after_the_second_token() {
    let req = parse_request("POST /submit HTTP/1.1 extra junk").unwrap();
    assert_eq!(req.method, "POST");
    assert_eq!(req.url, "/submit");
}

#[test]
fn line_without_second_token_is_rejected() {
    assert_eq!(
        parse_request("GET").unwrap_err(),
        ProtocolError::MalformedRequestLine
    );
    assert_eq!(
        parse_request("").unwrap_err(),
        ProtocolError::MalformedRequestLine
    );
}

#[test]
fn url_may_end_the_line() {
    let req = parse_request("GET /").unwrap();
    assert_eq!(req.method, "GET");
    assert_eq!(req.url, "/");
}

#[test]
fn doubled_space_yields_empty_url_token() {
    let req = parse_request("GET  /x").unwrap();
    assert_eq!(req.method, "GET");
    assert_eq!(req.url, "");
}

#[test]
fn method_tokens_of_the_closed_set() {
    assert_eq!(Method::from_str("GET"), Some(Method::Get));
    assert_eq!(Method::from_str("Get"), Some(Method::Get));
    assert_eq!(Method::from_str("get"), Some(Method::Get));
    assert_eq!(Method::from_str("POST"), Some(Method::Post));
    assert_eq!(Method::from_str("Post"), Some(Method::Post));
    assert_eq!(Method::from_str("post"), Some(Method::Post));
    assert_eq!(Method::from_str("PUT"), None);
    assert_eq!(Method::from_str("DELETE"), None);
    assert_eq!(Method::from_str(""), None);
    assert_eq!(Method::from_str("gEt"), None);
}

#[test]
fn classify_accepts_routed_verbs() {
    let (m, url) = classify_request("get /a b c").unwrap();
    assert_eq!(m, Method::Get);
    assert_eq!(url, "/a");
}

#[test]
fn classify_rejects_unknown_verbs_recoverably() {
    assert_eq!(
        classify_request("DELETE /x HTTP/1.1").unwrap_err(),
        ProtocolError::UnsupportedMethod
    );
    assert_eq!(
        classify_request("nonsense").unwrap_err(),
        ProtocolError::MalformedRequestLine
    );
}
