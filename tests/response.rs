use http_pipeline::body::{Body, ContentType, Text};
use http_pipeline::map::Headers;
use http_pipeline::response::Response;
use http_pipeline::status::ResponseStatusCode;

#[test]
fn continue_without_body_is_the_status_line() {
    let r = Response { status: ResponseStatusCode::Continue, header: Headers::new(), body: None };
    assert_eq!(r.as_bytes(), b"HTTP/1.1 100 Continue\r\n".to_vec());
}

#[test]
fn ok_with_html_body() {
    let r = Response {
        status: ResponseStatusCode::OK,
        header: Headers::new(),
        body: Some(Body { content_type: ContentType::Text(Text::html), content: b"hello_world".to_vec() }),
    };
    assert_eq!(
        r.as_bytes(),
        b"HTTP/1.1 200 Ok\r\nContent-Length: 11\r\nContent-Type: text/html\r\n\r\nhello_world".to_vec()
    );
}

#[test]
fn content_length_counts_body_bytes() {
    let content = vec![0u8; 1234];
    let r = Response {
        status: ResponseStatusCode::OK,
        header: Headers::new(),
        body: Some(Body { content_type: ContentType::Text(Text::plain), content: content.clone() }),
    };
    let bytes = r.as_bytes();
    let head = b"HTTP/1.1 200 Ok\r\nContent-Length: 1234\r\nContent-Type: text/plain\r\n\r\n";
    assert_eq!(&bytes[..head.len()], &head[..]);
    assert_eq!(&bytes[head.len()..], &content[..]);
}

#[test]
fn empty_body_has_length_zero() {
    let r = Response {
        status: ResponseStatusCode::NoContent,
        header: Headers::new(),
        body: Some(Body { content_type: ContentType::Text(Text::plain), content: Vec::new() }),
    };
    assert_eq!(
        r.as_bytes(),
        b"HTTP/1.1 204 No Content\r\nContent-Length: 0\r\nContent-Type: text/plain\r\n\r\n".to_vec()
    );
}

#[test]
fn headers_go_out_in_insertion_order() {
    let mut h = Headers::new();
    h.insert(String::from("a"), String::from("1"));
    h.insert(String::from("b"), String::from("2"));
    h.insert(String::from("a"), String::from("3"));
    let r = Response { status: ResponseStatusCode::NotFound, header: h, body: None };
    assert_eq!(r.as_bytes(), b"HTTP/1.1 404 Not Found\r\na: 3\r\nb: 2\r\n".to_vec());
}

#[test]
fn status_codes_and_texts() {
    assert_eq!(ResponseStatusCode::ImATeapot.code(), 418);
    assert_eq!(ResponseStatusCode::ImATeapot.text(), "418 I'm a Teapot");
    assert_eq!(ResponseStatusCode::PayloadTooLarge.text(), "413 Payload Too Large");
    assert_eq!(ResponseStatusCode::InternalServerError.code(), 500);
}
