//! The action stage: turning a parsed request, or the status of a failed
//! parse, into a response.
use vstd::prelude::*;

use std::sync::mpsc::{Receiver, Sender};

use crate::body::{Application, Body, ContentType, Text};
use crate::file::{self, extension, names, resolved_path, FileError};
use crate::map::{lookup, Headers};
use crate::method::Method;
use crate::request::{body_view, Request};
use crate::response::Response;
use crate::setting::ServerSetting;
use crate::status::ResponseStatusCode;
use crate::text::{push_str, utf8_of};

verus! {

#[verifier::external_type_specification]
#[verifier::external_body]
#[verifier::reject_recursive_types(T)]
pub struct ExSender<T>(Sender<T>);

#[verifier::external_type_specification]
#[verifier::external_body]
#[verifier::reject_recursive_types(T)]
pub struct ExReceiver<T>(Receiver<T>);

/// Where the file worker sends the outcome of one read.
pub type FileReply = Result<Vec<u8>, FileError>;

/// The channel to the file worker: a path to read and where to reply.
pub type FileUtilitySender = Sender<(String, Sender<FileReply>)>;

/// The number of times a request to the file worker is sent again after the
/// first send failed.
pub const SEND_RETRIES: usize = 5;

/// Relies on `std::sync::mpsc::channel`: a new channel for one reply.
#[verifier::external_body]
fn reply_channel() -> (Sender<FileReply>, Receiver<FileReply>) {
    std::sync::mpsc::channel()
}

/// Relies on `Sender::send`: on failure the value sent comes back.
#[verifier::external_body]
fn send_request(tx: &FileUtilitySender, path: String, reply: Sender<FileReply>) -> (r: Result<(), (String, Sender<FileReply>)>)
    ensures
        r matches Err(v) ==> v.0 == path,
{
    match tx.send((path, reply)) {
        Ok(()) => Ok(()),
        Err(e) => Err(e.0),
    }
}

/// How long the GET handler waits for the file worker's reply, in
/// milliseconds.
pub const REPLY_TIMEOUT_MS: u64 = 30000;

/// Relies on `Receiver::recv_timeout`: waits at most `timeout_ms`
/// milliseconds for the reply; `None` when none came in that time or the
/// worker hung up without one.
#[verifier::external_body]
fn receive_reply(rx: &Receiver<FileReply>, timeout_ms: u64) -> Option<FileReply> {
    match rx.recv_timeout(std::time::Duration::from_millis(timeout_ms)) {
        Ok(v) => Some(v),
        Err(_) => None,
    }
}

/// What the GET handler does after one send to the file worker.
#[derive(Debug, Clone, Copy, PartialEq, Eq, Structural)]
pub enum SendStep {
    /// The request went out: wait for the reply.
    Wait,
    /// The send failed: send the same request again.
    Retry,
    /// Give up with this status.
    Fail(ResponseStatusCode),
}

/// The step after a send, given how many retries were made before it: a
/// request is sent at most once plus `SEND_RETRIES` times, then the handler
/// answers `500 Internal Server Error`.
pub fn after_send(attempts: usize, sent: bool) -> (r: SendStep)
    ensures
        sent ==> r == SendStep::Wait,
        !sent && attempts < SEND_RETRIES ==> r == SendStep::Retry,
        !sent && attempts >= SEND_RETRIES ==> r == SendStep::Fail(ResponseStatusCode::InternalServerError),
{
    if sent {
        SendStep::Wait
    } else if attempts < SEND_RETRIES {
        SendStep::Retry
    } else {
        SendStep::Fail(ResponseStatusCode::InternalServerError)
    }
}

/// The status for a file that cannot be served: a missing file is `404 Not
/// Found`, a disallowed extension `403 Forbidden`.
pub open spec fn spec_file_error_status(e: FileError) -> ResponseStatusCode {
    match e {
        FileError::FileDoesNotExist => ResponseStatusCode::NotFound,
        FileError::InaccessibleExtension => ResponseStatusCode::Forbidden,
    }
}

/// The status for a file that cannot be served.
pub fn file_error_status(e: FileError) -> (r: ResponseStatusCode)
    ensures
        r == spec_file_error_status(e),
{
    match e {
        FileError::FileDoesNotExist => ResponseStatusCode::NotFound,
        FileError::InaccessibleExtension => ResponseStatusCode::Forbidden,
    }
}

/// The body text of the error page for `code`.
pub open spec fn error_page_text(code: ResponseStatusCode) -> Seq<char> {
    "<H1>"@ + code.spec_to_string() + "</H1>"@
}

/// `r` is the error page for `code`: that status, no headers and an HTML body
/// naming the status.
pub open spec fn is_error_page(r: Response, code: ResponseStatusCode) -> bool {
    &&& r.status == code
    &&& r.header.spec_entries().len() == 0
    &&& body_view(r.body) == Some((ContentType::Text(Text::html), vstd::utf8::encode_utf8(error_page_text(code))))
}

/// The media type served for a file extension; unknown ones are served as
/// `application/octet-stream`.
pub open spec fn media_type_for(ext: Seq<char>) -> ContentType {
    match ContentType::spec_from_extension(ext) {
        Some(ct) => ct,
        None => ContentType::Application(Application::octet_stream),
    }
}

/// The answer to any method that is not served.
pub fn not_allowed_logic(_request: &Request, _setting: &ServerSetting, _utility: &FileUtilitySender) -> (r: Result<Response, ResponseStatusCode>)
    ensures
        r == Err::<Response, ResponseStatusCode>(ResponseStatusCode::MethodNotAllowed),
{
    Err(ResponseStatusCode::MethodNotAllowed)
}

/// The error page for `err_code`.
pub fn default_err_page(err_code: &ResponseStatusCode, _setting: &ServerSetting, _utility: &FileUtilitySender) -> (r: Response)
    ensures
        is_error_page(r, *err_code),
{
    let mut text: Vec<char> = Vec::new();
    push_str(&mut text, "<H1>");
    push_str(&mut text, err_code.text());
    push_str(&mut text, "</H1>");
    Response {
        status: *err_code,
        header: Headers::new(),
        body: Some(Body { content_type: ContentType::Text(Text::html), content: utf8_of(&text) }),
    }
}

/// The response for the outcome of a file read of a file with extension
/// `ext`: the bytes with status 200, or the status that the failure maps to.
pub fn file_response(ext: &str, reply: Option<FileReply>) -> (r: Result<Response, ResponseStatusCode>)
    ensures
        match reply {
            None => r == Err::<Response, ResponseStatusCode>(ResponseStatusCode::InternalServerError),
            Some(Err(FileError::FileDoesNotExist)) => r == Err::<Response, ResponseStatusCode>(ResponseStatusCode::NotFound),
            Some(Err(FileError::InaccessibleExtension)) => r == Err::<Response, ResponseStatusCode>(ResponseStatusCode::Forbidden),
            Some(Ok(bytes)) => r matches Ok(resp) && resp.status == ResponseStatusCode::OK
                && resp.header.spec_entries().len() == 0
                && body_view(resp.body) == Some((media_type_for(ext@), bytes@)),
        },
{
    match reply {
        None => Err(ResponseStatusCode::InternalServerError),
        Some(Err(FileError::FileDoesNotExist)) => Err(ResponseStatusCode::NotFound),
        Some(Err(FileError::InaccessibleExtension)) => Err(ResponseStatusCode::Forbidden),
        Some(Ok(bytes)) => {
            let content_type = match ContentType::from_extension(ext) {
                Some(ct) => ct,
                None => ContentType::Application(Application::octet_stream),
            };
            Ok(Response {
                status: ResponseStatusCode::OK,
                header: Headers::new(),
                body: Some(Body { content_type, content: bytes }),
            })
        },
    }
}

/// What the GET handler decides before it touches the disk: the status for
/// a request without a `host` header or with an unknown host.
pub open spec fn get_precheck(request: Request, setting: ServerSetting) -> Option<ResponseStatusCode> {
    match lookup(request.1.spec_entries(), "host"@) {
        None => Some(ResponseStatusCode::ImATeapot),
        Some(host) => match lookup(setting.paths.spec_entries(), host) {
            None => Some(ResponseStatusCode::Forbidden),
            Some(_) => None,
        },
    }
}

/// What holds of every answer of the GET handler.
pub open spec fn get_outcome(request: Request, setting: ServerSetting, r: Result<Response, ResponseStatusCode>) -> bool {
    match get_precheck(request, setting) {
        Some(code) => r == Err::<Response, ResponseStatusCode>(code),
        None => {
            let host = lookup(request.1.spec_entries(), "host"@)->0;
            let domain = lookup(setting.paths.spec_entries(), host)->0;
            let path = resolved_path(request.0.target()@, domain.0);
            let ext = extension(path)->0;
            &&& !domain.1.contains(ext) ==> (r == Err::<Response, ResponseStatusCode>(ResponseStatusCode::NotFound)
                || r == Err::<Response, ResponseStatusCode>(ResponseStatusCode::Forbidden))
            &&& r matches Ok(resp) ==> resp.status == ResponseStatusCode::OK && resp.header.spec_entries().len() == 0
                && resp.body is Some && resp.body->0.content_type == media_type_for(ext)
            &&& r matches Err(code) ==> code == ResponseStatusCode::NotFound || code == ResponseStatusCode::Forbidden
                || code == ResponseStatusCode::InternalServerError
        },
    }
}

/// Serves a GET request: finds the host's folder, resolves the target to a
/// file, has the file worker read it and answers with its bytes.
#[verifier::loop_isolation(false)]
pub fn default_get_logic(request: &Request, setting: &ServerSetting, utility_thread: &FileUtilitySender) -> (r: Result<Response, ResponseStatusCode>)
    requires
        request.0 is Get,
    ensures
        get_outcome(*request, *setting, r),
{
    let host = match request.1.get("host") {
        Some(host) => host,
        None => return Err(ResponseStatusCode::ImATeapot),
    };
    let domain_path = match setting.paths.get(host.as_str()) {
        Some(d) => d,
        None => return Err(ResponseStatusCode::Forbidden),
    };
    let target = match &request.0 {
        Method::Get { file } => file,
        _ => return Err(ResponseStatusCode::MethodNotAllowed),
    };
    let (_, ext) = file::resolve(target.as_str(), domain_path.path.as_str());
    let path = match file::parse(target.as_str(), domain_path.path.as_str(), &domain_path.allow) {
        Ok(path) => path,
        Err(e) => return Err(file_error_status(e)),
    };
    let (tx, rx) = reply_channel();
    let mut attempts: usize = 0;
    let mut val = (path, tx);
    loop
        invariant
            attempts <= SEND_RETRIES,
        decreases SEND_RETRIES - attempts,
    {
        let (sent, back) = match send_request(utility_thread, val.0, val.1) {
            Ok(()) => (true, None),
            Err(back) => (false, Some(back)),
        };
        match after_send(attempts, sent) {
            SendStep::Wait => break,
            SendStep::Retry => {
                val = back.unwrap();
                attempts = attempts + 1;
            },
            SendStep::Fail(code) => return Err(code),
        }
    }
    let reply = receive_reply(&rx, REPLY_TIMEOUT_MS);
    proof {
        assert(names(domain_path.allow@) == domain_path@.1);
    }
    file_response(ext.as_str(), reply)
}

/// The action stage's dispatcher: GET is served, every other method is
/// refused, and the status of a failed parse gets its error page.
pub fn default_action(request: &Result<Request, ResponseStatusCode>, setting: &ServerSetting, utility_thread: &FileUtilitySender) -> (r: Result<Response, ResponseStatusCode>)
    ensures
        match request {
            Err(code) => r matches Ok(page) && is_error_page(page, *code),
            Ok(req) => if req.0 is Get {
                get_outcome(*req, *setting, r)
            } else {
                r == Err::<Response, ResponseStatusCode>(ResponseStatusCode::MethodNotAllowed)
            },
        },
{
    match request {
        Ok(req) => match &req.0 {
            Method::Get { .. } => default_get_logic(req, setting, utility_thread),
            Method::Head { .. } => not_allowed_logic(req, setting, utility_thread),
            Method::Post { .. } => not_allowed_logic(req, setting, utility_thread),
            Method::Put { .. } => not_allowed_logic(req, setting, utility_thread),
            Method::Delete { .. } => not_allowed_logic(req, setting, utility_thread),
            Method::Connect { .. } => not_allowed_logic(req, setting, utility_thread),
            Method::Options { .. } => not_allowed_logic(req, setting, utility_thread),
            Method::Trace { .. } => not_allowed_logic(req, setting, utility_thread),
            Method::Patch { .. } => not_allowed_logic(req, setting, utility_thread),
        },
        Err(code) => Ok(default_err_page(code, setting, utility_thread)),
    }
}

/// The response sent when a handler failed with `status`: the error page that
/// was made for it, or, when none could be made, the bare status.
pub fn fallback_response(page: Result<Response, ResponseStatusCode>, status: ResponseStatusCode) -> (r: Response)
    ensures
        page matches Ok(p) ==> r == p,
        page is Err ==> r.status == status && r.header.spec_entries().len() == 0 && r.body is None,
{
    match page {
        Ok(p) => p,
        Err(_) => Response { status, header: Headers::new(), body: None },
    }
}

/// Exactly one response for each item that the action stage takes; a failure
/// of the dispatcher is answered with the error page of its status.
pub fn respond(request: &Result<Request, ResponseStatusCode>, setting: &ServerSetting, utility_thread: &FileUtilitySender) -> (r: Response)
    ensures
        match request {
            Err(code) => is_error_page(r, *code),
            Ok(req) => if !(req.0 is Get) {
                is_error_page(r, ResponseStatusCode::MethodNotAllowed)
            } else {
                match get_precheck(*req, *setting) {
                    Some(code) => is_error_page(r, code),
                    None => r.status == ResponseStatusCode::OK || (is_error_page(r, r.status) && (
                    r.status == ResponseStatusCode::NotFound || r.status == ResponseStatusCode::Forbidden
                        || r.status == ResponseStatusCode::InternalServerError)),
                }
            },
        },
{
    match default_action(request, setting, utility_thread) {
        Ok(v) => v,
        Err(err) => {
            let page = default_action(&Err(err), setting, utility_thread);
            fallback_response(page, err)
        },
    }
}

} // verus!
