use http_pipeline::error::ParserError;
use http_pipeline::method::Method;
use http_pipeline::reader::{parse_request_bytes, ReadEvent, ReadStep, RequestReader};
use http_pipeline::request::Request;
use http_pipeline::status::ResponseStatusCode;

#[test]
fn missing_version_is_rejected() {
    assert_eq!(Request::from_str("GET /index.html").err(), Some(ParserError::InvalidStartLine));
    assert_eq!(
        parse_request_bytes(b"GET /index.html".to_vec()).err(),
        Some(ResponseStatusCode::BadRequest)
    );
}

#[test]
fn headers_are_lowercased_and_trimmed() {
    let Request(method, headers) =
        Request::from_str("get /a.html HTTP/1.1\r\nHost:  localhost:8080 \r\nAccept-Encoding: gzip\r\n\r\n").unwrap();
    assert_eq!(method, Method::Get { file: String::from("/a.html") });
    assert_eq!(headers.get("host"), Some(&String::from("localhost:8080")));
    assert_eq!(headers.get("accept-encoding"), Some(&String::from("gzip")));
    assert_eq!(headers.len(), 2);
}

#[test]
fn header_without_colon_is_rejected() {
    assert_eq!(Request::from_str("GET / HTTP/1.1\nbroken").err(), Some(ParserError::InvalidHeader));
}

#[test]
fn unknown_method_and_missing_body_are_rejected() {
    assert_eq!(Request::from_str("FETCH / HTTP/1.1").err(), Some(ParserError::InvalidMethod));
    assert_eq!(Request::from_str("POST / HTTP/1.1\nHost: x").err(), Some(ParserError::InvalidMethod));
}

#[test]
fn bad_content_type_is_rejected() {
    assert_eq!(
        Request::from_str("PUT / HTTP/1.1\nContent-Type: text/nope\nContent-Length: 1\n\nx").err(),
        Some(ParserError::InvalidContentType)
    );
}

#[test]
fn body_stops_at_nul() {
    let Request(method, _) =
        Request::from_str("POST /f HTTP/1.1\nContent-Type: text/plain\nContent-Length: 5\n\nab\ncd\0\0junk").unwrap();
    match method {
        Method::Post { body, .. } => assert_eq!(body.content, b"ab\ncd".to_vec()),
        _ => panic!("expected POST"),
    }
}

#[test]
fn get_keeps_no_body() {
    let Request(method, _) =
        Request::from_str("GET /f HTTP/1.1\nContent-Type: text/plain\nContent-Length: 5\n\nhello").unwrap();
    assert_eq!(method, Method::Get { file: String::from("/f") });
}

fn feed(reader: &mut RequestReader, bytes: &[u8], size: usize) -> Option<Result<Request, ResponseStatusCode>> {
    for chunk in bytes.chunks(size) {
        if let ReadStep::Done(r) = reader.step(ReadEvent::Chunk(chunk.to_vec())) {
            return Some(r);
        }
    }
    None
}

#[test]
fn payload_too_large() {
    let mut reader = RequestReader::new(5);
    let r = feed(&mut reader, b"GET /index.html HTTP/1.1", 5);
    assert_eq!(r.unwrap().err(), Some(ResponseStatusCode::PayloadTooLarge));
    let mut reader = RequestReader::new(100);
    let long = "GET /index.html HTTP/1.1\n".repeat(5);
    assert_eq!(long.len(), 125);
    let r = feed(&mut reader, long.as_bytes(), 10);
    assert_eq!(r.unwrap().err(), Some(ResponseStatusCode::PayloadTooLarge));
}

#[test]
fn request_at_the_limit_is_read() {
    let text = b"GET /index.html HTTP/1.1\nhost: localhost";
    let mut reader = RequestReader::new(text.len());
    assert!(feed(&mut reader, text, 7).is_none());
    match reader.step(ReadEvent::Quiet) {
        ReadStep::Done(Ok(Request(Method::Get { file }, headers))) => {
            assert_eq!(file, "/index.html");
            assert_eq!(headers.get("host"), Some(&String::from("localhost")));
        }
        _ => panic!("expected a GET request"),
    }
}

#[test]
fn malformed_start_line_after_close_is_bad_request() {
    let mut reader = RequestReader::new(500);
    assert!(feed(&mut reader, b"GET /index.html", 100).is_none());
    match reader.step(ReadEvent::Closed) {
        ReadStep::Done(r) => assert_eq!(r.err(), Some(ResponseStatusCode::BadRequest)),
        ReadStep::Continue => panic!("expected an outcome"),
    }
}

#[test]
fn read_failures_map_to_statuses() {
    let mut reader = RequestReader::new(10);
    match reader.step(ReadEvent::TimedOut) {
        ReadStep::Done(r) => assert_eq!(r.err(), Some(ResponseStatusCode::RequestTimeout)),
        ReadStep::Continue => panic!("expected an outcome"),
    }
    match reader.step(ReadEvent::Failed) {
        ReadStep::Done(r) => assert_eq!(r.err(), Some(ResponseStatusCode::BadRequest)),
        ReadStep::Continue => panic!("expected an outcome"),
    }
}

#[test]
fn invalid_utf8_is_bad_request() {
    assert_eq!(
        parse_request_bytes(vec![b'G', b'E', b'T', b' ', 0xff, b' ', b'H']).err(),
        Some(ResponseStatusCode::BadRequest)
    );
    let ok = parse_request_bytes("GET /caf\u{e9} HTTP/1.1".as_bytes().to_vec()).unwrap();
    assert_eq!(ok.0, Method::Get { file: String::from("/caf\u{e9}") });
}
