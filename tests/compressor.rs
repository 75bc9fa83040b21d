use std::io::Read;

use http_pipeline::body::{Body, ContentType, Text};
use http_pipeline::compress::{accepted_encodings, compression, no_compression, Encoding};
use http_pipeline::map::{Headers, StrMap};
use http_pipeline::method::Method;
use http_pipeline::request::Request;
use http_pipeline::response::Response;
use http_pipeline::setting::ServerSetting;
use http_pipeline::status::ResponseStatusCode;

fn empty_setting() -> ServerSetting {
    ServerSetting {
        address: String::from(""),
        port: 8080,
        paths: StrMap::new(),
    }
}

// compression check
#[test]
fn no_compression_basic() {
    let data = Response {
        status: ResponseStatusCode::Continue,
        header: Headers::new(),
        body: None,
    };

    let request = Request(
        Method::Get {
            file: String::from(""),
        },
        Headers::new(),
    );
    let server = ServerSetting {
        address: String::from(""),
        port: 8080,
        paths: StrMap::new(),
    };

    let actual = no_compression(data, Some(request), server);
    let expected = vec![
        72, 84, 84, 80, 47, 49, 46, 49, 32, 49, 48, 48, 32, 67, 111, 110, 116, 105, 110, 117,
        101, 13, 10,
    ];

    assert_eq!(actual, expected)
}

#[test]
fn no_compression_with_header() {
    let data = Response {
        status: ResponseStatusCode::Continue,
        header: {
            let mut tmp = Headers::new();

            tmp.insert(String::from("key"), String::from("value"));

            tmp
        },
        body: None,
    };

    let request = Request(
        Method::Get {
            file: String::from(""),
        },
        Headers::new(),
    );
    let server = ServerSetting {
        address: String::from(""),
        port: 8080,
        paths: StrMap::new(),
    };

    let actual = no_compression(data, Some(request), server);
    let expected = vec![
        72, 84, 84, 80, 47, 49, 46, 49, 32, 49, 48, 48, 32, 67, 111, 110, 116, 105, 110, 117,
        101, 13, 10, 107, 101, 121, 58, 32, 118, 97, 108, 117, 101, 13, 10,
    ];

    assert_eq!(actual, expected);
}

#[test]
fn no_compression_with_body() {
    let data = Response {
        status: ResponseStatusCode::Continue,
        header: {
            let mut tmp = Headers::new();

            tmp.insert(String::from("key"), String::from("value"));

            tmp
        },
        body: Some(Body {
            content_type: ContentType::Text(Text::plain),
            content: String::from("hello world").as_bytes().to_vec(),
        }),
    };

    let request = Request(
        Method::Get {
            file: String::from(""),
        },
        Headers::new(),
    );
    let server = ServerSetting {
        address: String::from(""),
        port: 8080,
        paths: StrMap::new(),
    };

    let actual = no_compression(data, Some(request), server);
    // the blank line before the body is "\r\n", as in every other response
    let expected = vec![
        72, 84, 84, 80, 47, 49, 46, 49, 32, 49, 48, 48, 32, 67, 111, 110, 116, 105, 110, 117,
        101, 13, 10, 107, 101, 121, 58, 32, 118, 97, 108, 117, 101, 13, 10, 67, 111, 110, 116,
        101, 110, 116, 45, 76, 101, 110, 103, 116, 104, 58, 32, 49, 49, 13, 10, 67, 111, 110,
        116, 101, 110, 116, 45, 84, 121, 112, 101, 58, 32, 116, 101, 120, 116, 47, 112, 108,
        97, 105, 110, 13, 10, 13, 10, 104, 101, 108, 108, 111, 32, 119, 111, 114, 108, 100,
    ];

    assert_eq!(actual, expected);
}

fn html_response(content: &[u8]) -> Response {
    Response {
        status: ResponseStatusCode::OK,
        header: Headers::new(),
        body: Some(Body {
            content_type: ContentType::Text(Text::html),
            content: content.to_vec(),
        }),
    }
}

fn request_accepting(value: &str) -> Request {
    let mut headers = Headers::new();
    headers.insert(String::from("host"), String::from("localhost"));
    headers.insert(String::from("accept-encoding"), String::from(value));
    Request(Method::Get { file: String::from("file_1.html") }, headers)
}

fn split_head(bytes: &[u8]) -> (String, Vec<u8>) {
    let mut i = 0;
    while i + 4 <= bytes.len() {
        if &bytes[i..i + 4] == b"\r\n\r\n" {
            return (String::from_utf8(bytes[..i + 4].to_vec()).unwrap(), bytes[i + 4..].to_vec());
        }
        i += 1;
    }
    panic!("no blank line");
}

fn sample_body() -> Vec<u8> {
    let text = "abcdefghijklmnopqrstuvwxyz".repeat(4);
    assert_eq!(text.len(), 104);
    text.as_bytes().to_vec()
}

#[test]
fn gzip_round_trip() {
    let body = sample_body();
    let out = compression(html_response(&body), Some(request_accepting("gzip")), empty_setting());
    let (head, encoded) = split_head(&out);
    assert!(head.contains("Content-Encoding: gzip\r\n"));
    assert!(head.contains(&format!("Content-Length: {}\r\n", encoded.len())));
    let mut decoded = Vec::new();
    flate2::read::GzDecoder::new(&encoded[..]).read_to_end(&mut decoded).unwrap();
    assert_eq!(decoded, body);
}

#[test]
fn deflate_round_trip() {
    let body = sample_body();
    let out = compression(html_response(&body), Some(request_accepting("deflate")), empty_setting());
    let (head, encoded) = split_head(&out);
    assert!(head.contains("Content-Encoding: deflate\r\n"));
    assert_ne!(encoded, body);
    let mut decoded = Vec::new();
    flate2::read::DeflateDecoder::new(&encoded[..]).read_to_end(&mut decoded).unwrap();
    assert_eq!(decoded, body);
}

#[test]
fn zlib_round_trip() {
    let body = sample_body();
    let out = compression(html_response(&body), Some(request_accepting("zlib")), empty_setting());
    let (head, encoded) = split_head(&out);
    assert!(head.contains("Content-Encoding: zlib\r\n"));
    let mut decoded = Vec::new();
    flate2::read::ZlibDecoder::new(&encoded[..]).read_to_end(&mut decoded).unwrap();
    assert_eq!(decoded, body);
}

#[test]
fn first_known_token_wins() {
    let body = sample_body();
    let out = compression(html_response(&body), Some(request_accepting("br, zlib , gzip")), empty_setting());
    let (head, _) = split_head(&out);
    assert!(head.contains("Content-Encoding: zlib\r\n"));
    assert!(!head.contains("gzip"));
}

#[test]
fn unknown_tokens_leave_body_plain() {
    let body = sample_body();
    let plain = html_response(&body).as_bytes();
    let out = compression(html_response(&body), Some(request_accepting("br, identity")), empty_setting());
    assert_eq!(out, plain);
}

#[test]
fn no_accept_encoding_or_no_request_is_plain() {
    let body = sample_body();
    let plain = html_response(&body).as_bytes();
    let mut headers = Headers::new();
    headers.insert(String::from("host"), String::from("localhost"));
    let request = Request(Method::Get { file: String::from("x") }, headers);
    assert_eq!(compression(html_response(&body), Some(request), empty_setting()), plain);
    assert_eq!(compression(html_response(&body), None, empty_setting()), plain);
}

#[test]
fn accept_encoding_tokens_are_trimmed_in_order() {
    let tokens = accepted_encodings(" gzip ,deflate,, zlib");
    let texts: Vec<String> = tokens.iter().map(|t| t.iter().collect()).collect();
    assert_eq!(texts, vec!["gzip", "deflate", "", "zlib"]);
}

#[test]
fn encoding_names_and_tokens() {
    for e in [Encoding::Gzip, Encoding::Deflate, Encoding::Zlib] {
        let token: Vec<char> = e.name().chars().collect();
        assert_eq!(Encoding::from_token(&token), Some(e));
    }
    let other: Vec<char> = "br".chars().collect();
    assert_eq!(Encoding::from_token(&other), None);
}
