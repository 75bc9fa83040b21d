use std::sync::mpsc;

use http_pipeline::action::{
    after_send, default_action, default_err_page, file_error_status, SendStep, SEND_RETRIES, default_get_logic, fallback_response, file_response, not_allowed_logic,
    respond, FileReply, FileUtilitySender,
};
use http_pipeline::body::{Application, Body, ContentType, Image, Text};
use http_pipeline::file::{parse, parse_checked, resolve, FileError};
use http_pipeline::map::{Headers, StrMap};
use http_pipeline::method::Method;
use http_pipeline::request::Request;
use http_pipeline::setting::{DomainPath, ServerSetting};
use http_pipeline::status::ResponseStatusCode;

fn setting() -> ServerSetting {
    let mut paths = StrMap::new();
    paths.insert(
        String::from("localhost"),
        DomainPath { path: String::from(""), allow: vec![String::from("html")] },
    );
    ServerSetting { address: String::from("localhost"), port: 8080, paths }
}

fn worker() -> FileUtilitySender {
    let (tx, _rx) = mpsc::channel::<(String, mpsc::Sender<FileReply>)>();
    tx
}

fn get(file: &str, host: Option<&str>) -> Request {
    let mut headers = Headers::new();
    if let Some(h) = host {
        headers.insert(String::from("host"), String::from(h));
    }
    Request(Method::Get { file: String::from(file) }, headers)
}

#[test]
fn resolve_strips_leading_separators_and_query() {
    let (path, ext) = resolve("/\\/file_1.html?x=1?y", "");
    assert_eq!(path, "source/file_1.html");
    assert_eq!(ext, "html");
    let (path, ext) = resolve("docs/a.txt", "www");
    assert_eq!(path, "source/www/docs/a.txt");
    assert_eq!(ext, "txt");
}

#[test]
fn resolve_adds_index_for_folders() {
    assert_eq!(resolve("", "").0, "source/index.html");
    assert_eq!(resolve("/blog", "site").0, "source/site/blog/index.html");
    assert_eq!(resolve("blog/", "site").0, "source/site/blog/index.html");
    assert_eq!(resolve(".hidden", "").0, "source/.hidden/index.html");
}

#[test]
fn parse_checked_orders_missing_before_extension() {
    let allow = vec![String::from("html")];
    assert_eq!(parse_checked("a.png", "", &allow, false), Err(FileError::FileDoesNotExist));
    assert_eq!(parse_checked("a.png", "", &allow, true), Err(FileError::InaccessibleExtension));
    assert_eq!(parse_checked("a.html", "", &allow, true), Ok(String::from("source/a.html")));
}

#[test]
fn parse_reports_missing_file() {
    let allow = vec![String::from("html")];
    assert_eq!(parse("no_such_file_anywhere.html", "nowhere", &allow), Err(FileError::FileDoesNotExist));
}

#[test]
fn error_page_names_the_status() {
    let r = default_err_page(&ResponseStatusCode::NotFound, &setting(), &worker());
    assert_eq!(r.status, ResponseStatusCode::NotFound);
    assert_eq!(r.header.len(), 0);
    let body = r.body.unwrap();
    assert_eq!(body.content_type, ContentType::Text(Text::html));
    assert_eq!(body.content, b"<H1>404 Not Found</H1>".to_vec());
}

#[test]
fn other_methods_are_not_allowed() {
    let req = Request(Method::Head { file: String::from("/") }, Headers::new());
    assert_eq!(not_allowed_logic(&req, &setting(), &worker()).err(), Some(ResponseStatusCode::MethodNotAllowed));
    let r = respond(&Ok(req), &setting(), &worker());
    assert_eq!(r.status, ResponseStatusCode::MethodNotAllowed);
    assert_eq!(r.body.unwrap().content, b"<H1>405 Method Not Allowed</H1>".to_vec());
}

#[test]
fn get_without_host_is_a_teapot() {
    let r = default_get_logic(&get("file_1.html", None), &setting(), &worker());
    assert_eq!(r.err(), Some(ResponseStatusCode::ImATeapot));
}

#[test]
fn get_for_unknown_host_is_forbidden() {
    let r = default_get_logic(&get("file_1.html", Some("example.org")), &setting(), &worker());
    assert_eq!(r.err(), Some(ResponseStatusCode::Forbidden));
}

#[test]
fn get_for_missing_file_is_not_found() {
    let r = default_get_logic(&get("no_such_file_anywhere.html", Some("localhost")), &setting(), &worker());
    assert_eq!(r.err(), Some(ResponseStatusCode::NotFound));
}

#[test]
fn parse_errors_get_their_error_page() {
    let r = default_action(&Err(ResponseStatusCode::BadRequest), &setting(), &worker()).unwrap();
    assert_eq!(r.status, ResponseStatusCode::BadRequest);
    assert_eq!(r.body.unwrap().content, b"<H1>400 Bad Request</H1>".to_vec());
    let r = respond(&Err(ResponseStatusCode::PayloadTooLarge), &setting(), &worker());
    assert_eq!(r.status, ResponseStatusCode::PayloadTooLarge);
}

#[test]
fn file_replies_become_responses() {
    let ok = file_response("JPG", Some(Ok(vec![1, 2, 3]))).unwrap();
    assert_eq!(ok.status, ResponseStatusCode::OK);
    let body = ok.body.unwrap();
    assert_eq!(body.content_type, ContentType::Image(Image::jpeg));
    assert_eq!(body.content, vec![1, 2, 3]);
    let odd = file_response("weird", Some(Ok(vec![]))).unwrap();
    assert_eq!(odd.body.unwrap().content_type, ContentType::Application(Application::octet_stream));
    assert_eq!(file_response("html", Some(Err(FileError::FileDoesNotExist))).err(), Some(ResponseStatusCode::NotFound));
    assert_eq!(file_response("html", Some(Err(FileError::InaccessibleExtension))).err(), Some(ResponseStatusCode::Forbidden));
    assert_eq!(file_response("html", None).err(), Some(ResponseStatusCode::InternalServerError));
}

#[test]
fn fallback_keeps_a_page_or_sends_the_bare_status() {
    let page = default_err_page(&ResponseStatusCode::Forbidden, &setting(), &worker());
    let kept = fallback_response(Ok(page), ResponseStatusCode::Forbidden);
    assert!(kept.body.is_some());
    let bare = fallback_response(Err(ResponseStatusCode::Forbidden), ResponseStatusCode::Forbidden);
    assert_eq!(bare.status, ResponseStatusCode::Forbidden);
    assert!(bare.body.is_none());
    assert_eq!(bare.header.len(), 0);
}

#[test]
fn extension_table_ignores_case() {
    assert_eq!(ContentType::from_extension("HTML"), Some(ContentType::Text(Text::html)));
    assert_eq!(ContentType::from_extension("jfif"), Some(ContentType::Image(Image::jpeg)));
    assert_eq!(ContentType::from_extension("exe"), None);
}

#[test]
fn content_type_parse_errors() {
    assert!(ContentType::new("text").is_err());
    assert!(ContentType::new("text/unknown").is_err());
    assert!(ContentType::new("font/woff").is_err());
    assert!(ContentType::new("video/none").is_err());
    assert_eq!(ContentType::new("text/html; charset=utf-8"), Ok(ContentType::Text(Text::html)));
}

#[test]
fn body_keeps_its_bytes() {
    let b = Body { content_type: ContentType::Text(Text::plain), content: vec![104, 105] };
    assert_eq!(b.clone(), b);
}

#[test]
fn get_hello_request_and_response() {
    let Request(method, headers) = Request::from_str("GET file_1.html HTTP/1.1\n\rhost:localhost").unwrap();
    assert_eq!(method, Method::Get { file: String::from("file_1.html") });
    assert_eq!(headers.get("host"), Some(&String::from("localhost")));
    let (path, ext) = resolve("file_1.html", "");
    assert_eq!(path, "source/file_1.html");
    let response = file_response(&ext, Some(Ok(b"hello_world".to_vec()))).unwrap();
    assert_eq!(
        response.as_bytes(),
        b"HTTP/1.1 200 Ok\r\nContent-Length: 11\r\nContent-Type: text/html\r\n\r\nhello_world".to_vec()
    );
}

#[test]
fn every_request_gets_one_response() {
    let r = respond(&Ok(get("file_1.html", None)), &setting(), &worker());
    assert_eq!(r.status, ResponseStatusCode::ImATeapot);
    assert_eq!(r.body.unwrap().content, "<H1>418 I'm a Teapot</H1>".as_bytes().to_vec());
    let r = respond(&Ok(get("missing_file_here.html", Some("localhost"))), &setting(), &worker());
    assert_eq!(r.status, ResponseStatusCode::NotFound);
    assert_eq!(r.body.unwrap().content, b"<H1>404 Not Found</H1>".to_vec());
}

#[test]
fn sends_are_retried_five_times_then_fail() {
    assert_eq!(after_send(0, true), SendStep::Wait);
    let mut sends = 0;
    let mut attempts = 0;
    loop {
        sends += 1;
        match after_send(attempts, false) {
            SendStep::Retry => attempts += 1,
            SendStep::Fail(code) => {
                assert_eq!(code, ResponseStatusCode::InternalServerError);
                break;
            }
            SendStep::Wait => panic!("nothing was sent"),
        }
    }
    assert_eq!(sends, 1 + SEND_RETRIES);
}

#[test]
fn path_errors_map_to_statuses() {
    assert_eq!(file_error_status(FileError::FileDoesNotExist), ResponseStatusCode::NotFound);
    assert_eq!(file_error_status(FileError::InaccessibleExtension), ResponseStatusCode::Forbidden);
}
