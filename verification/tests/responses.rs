use simple_http::content_type::ContentType;
use simple_http::response::{err404, page_404, Response};
use simple_http::status::Status;

#[test]
fn content_type_table() {
    assert_eq!(
        ContentType::from_file_ext("/a.css"),
        ContentType::TextCss
    );
    assert_eq!(
        ContentType::from_file_ext("/a.html"),
        ContentType::TextHtml
    );
    assert_eq!(ContentType::from_file_ext("/a.xml"), ContentType::TextXml);
    assert_eq!(
        ContentType::from_file_ext("/a.json"),
        ContentType::ApplicationJson
    );
    assert_eq!(
        ContentType::from_file_ext("/a.js"),
        ContentType::ApplicationJavascript
    );
    assert_eq!(ContentType::from_file_ext("/a.txt"), ContentType::TextPlain);
    assert_eq!(
        ContentType::from_file_ext("/a.woff"),
        ContentType::TextPlain
    );
    assert_eq!(
        ContentType::from_file_ext_or("/bare", ContentType::TextHtml),
        ContentType::TextHtml
    );
}

#[test]
fn mime_strings() {
    assert_eq!(ContentType::TextPlain.to_string(), "text/plain");
    assert_eq!(ContentType::TextCss.to_string(), "text/css");
    assert_eq!(ContentType::TextHtml.to_string(), "text/html");
    assert_eq!(ContentType::TextXml.to_string(), "text/xml");
    assert_eq!(ContentType::ApplicationJson.to_string(), "application/json");
    assert_eq!(
        ContentType::ApplicationJavascript.to_string(),
        "application/javascript"
    );
}

#[test]
fn send_serializes_status_length_type_and_body() {
    let res = Response::new_ok(ContentType::TextCss);
    let bytes = res.send(b"body { color: red }");
    let expected = format!(
        "HTTP/1.1 200 OK\nContent-Length: {}\nContent-Type:text/css\n\nbody {{ color: red }}",
        b"body { color: red }".len()
    );
    assert_eq!(bytes, expected.into_bytes());
}

#[test]
fn send_without_content_type_omits_the_header() {
    let res = Response::new(None, Status::ok());
    let bytes = res.send(b"abc");
    assert_eq!(bytes, b"HTTP/1.1 200 OK\nContent-Length: 3\n\nabc".to_vec());
}

#[test]
fn send_with_empty_body_has_zero_length() {
    let mut res = Response::new(None, Status::ok());
    res.set_status_line(Status::not_found());
    let bytes = res.send(b"");
    assert_eq!(
        bytes,
        b"HTTP/1.1 404 Not Found\nContent-Length: 0\n\n".to_vec()
    );
}

#[test]
fn err404_is_the_fixed_page() {
    let page = page_404();
    let expected = format!(
        "HTTP/1.1 404 Not Found\nContent-Length: {}\n\n{}",
        page.len(),
        page
    );
    assert_eq!(err404(), expected.into_bytes());
    assert!(page.contains("<p>404</p>"));
    assert!(page.contains("Simple HTTP"));
}

#[test]
fn status_lines() {
    assert_eq!(Status::ok(), "HTTP/1.1 200 OK");
    assert_eq!(Status::not_found(), "HTTP/1.1 404 Not Found");
}
