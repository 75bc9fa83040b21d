//! Response status codes with their canonical reason phrases.
use vstd::prelude::*;

verus! {

/// The status of a response.
#[derive(Debug, Clone, Copy, PartialEq, Eq, Structural)]
pub enum ResponseStatusCode {
    Continue,
    SwitchingProtocols,
    OK,
    Created,
    Accepted,
    NoContent,
    MovedPermanently,
    Found,
    NotModified,
    BadRequest,
    Unauthorized,
    Forbidden,
    NotFound,
    MethodNotAllowed,
    RequestTimeout,
    PayloadTooLarge,
    ImATeapot,
    InternalServerError,
    NotImplemented,
    ServiceUnavailable,
}

impl ResponseStatusCode {
    /// The numeric code.
    pub open spec fn spec_code(self) -> u16 {
        match self {
            ResponseStatusCode::Continue => 100,
            ResponseStatusCode::SwitchingProtocols => 101,
            ResponseStatusCode::OK => 200,
            ResponseStatusCode::Created => 201,
            ResponseStatusCode::Accepted => 202,
            ResponseStatusCode::NoContent => 204,
            ResponseStatusCode::MovedPermanently => 301,
            ResponseStatusCode::Found => 302,
            ResponseStatusCode::NotModified => 304,
            ResponseStatusCode::BadRequest => 400,
            ResponseStatusCode::Unauthorized => 401,
            ResponseStatusCode::Forbidden => 403,
            ResponseStatusCode::NotFound => 404,
            ResponseStatusCode::MethodNotAllowed => 405,
            ResponseStatusCode::RequestTimeout => 408,
            ResponseStatusCode::PayloadTooLarge => 413,
            ResponseStatusCode::ImATeapot => 418,
            ResponseStatusCode::InternalServerError => 500,
            ResponseStatusCode::NotImplemented => 501,
            ResponseStatusCode::ServiceUnavailable => 503,
        }
    }

    /// The status line text: the code, a space and the reason phrase.
    pub open spec fn spec_to_string(self) -> Seq<char> {
        match self {
            ResponseStatusCode::Continue => "100 Continue"@,
            ResponseStatusCode::SwitchingProtocols => "101 Switching Protocols"@,
            ResponseStatusCode::OK => "200 Ok"@,
            ResponseStatusCode::Created => "201 Created"@,
            ResponseStatusCode::Accepted => "202 Accepted"@,
            ResponseStatusCode::NoContent => "204 No Content"@,
            ResponseStatusCode::MovedPermanently => "301 Moved Permanently"@,
            ResponseStatusCode::Found => "302 Found"@,
            ResponseStatusCode::NotModified => "304 Not Modified"@,
            ResponseStatusCode::BadRequest => "400 Bad Request"@,
            ResponseStatusCode::Unauthorized => "401 Unauthorized"@,
            ResponseStatusCode::Forbidden => "403 Forbidden"@,
            ResponseStatusCode::NotFound => "404 Not Found"@,
            ResponseStatusCode::MethodNotAllowed => "405 Method Not Allowed"@,
            ResponseStatusCode::RequestTimeout => "408 Request Timeout"@,
            ResponseStatusCode::PayloadTooLarge => "413 Payload Too Large"@,
            ResponseStatusCode::ImATeapot => "418 I'm a Teapot"@,
            ResponseStatusCode::InternalServerError => "500 Internal Server Error"@,
            ResponseStatusCode::NotImplemented => "501 Not Implemented"@,
            ResponseStatusCode::ServiceUnavailable => "503 Service Unavailable"@,
        }
    }

    /// The numeric code.
    pub fn code(&self) -> (r: u16)
        ensures
            r == self.spec_code(),
    {
        match self {
            ResponseStatusCode::Continue => 100,
            ResponseStatusCode::SwitchingProtocols => 101,
            ResponseStatusCode::OK => 200,
            ResponseStatusCode::Created => 201,
            ResponseStatusCode::Accepted => 202,
            ResponseStatusCode::NoContent => 204,
            ResponseStatusCode::MovedPermanently => 301,
            ResponseStatusCode::Found => 302,
            ResponseStatusCode::NotModified => 304,
            ResponseStatusCode::BadRequest => 400,
            ResponseStatusCode::Unauthorized => 401,
            ResponseStatusCode::Forbidden => 403,
            ResponseStatusCode::NotFound => 404,
            ResponseStatusCode::MethodNotAllowed => 405,
            ResponseStatusCode::RequestTimeout => 408,
            ResponseStatusCode::PayloadTooLarge => 413,
            ResponseStatusCode::ImATeapot => 418,
            ResponseStatusCode::InternalServerError => 500,
            ResponseStatusCode::NotImplemented => 501,
            ResponseStatusCode::ServiceUnavailable => 503,
        }
    }

    /// The status line text, as in `404 Not Found`.
    pub fn text(&self) -> (r: &'static str)
        ensures
            r@ == self.spec_to_string(),
    {
        match self {
            ResponseStatusCode::Continue => "100 Continue",
            ResponseStatusCode::SwitchingProtocols => "101 Switching Protocols",
            ResponseStatusCode::OK => "200 Ok",
            ResponseStatusCode::Created => "201 Created",
            ResponseStatusCode::Accepted => "202 Accepted",
            ResponseStatusCode::NoContent => "204 No Content",
            ResponseStatusCode::MovedPermanently => "301 Moved Permanently",
            ResponseStatusCode::Found => "302 Found",
            ResponseStatusCode::NotModified => "304 Not Modified",
            ResponseStatusCode::BadRequest => "400 Bad Request",
            ResponseStatusCode::Unauthorized => "401 Unauthorized",
            ResponseStatusCode::Forbidden => "403 Forbidden",
            ResponseStatusCode::NotFound => "404 Not Found",
            ResponseStatusCode::MethodNotAllowed => "405 Method Not Allowed",
            ResponseStatusCode::RequestTimeout => "408 Request Timeout",
            ResponseStatusCode::PayloadTooLarge => "413 Payload Too Large",
            ResponseStatusCode::ImATeapot => "418 I'm a Teapot",
            ResponseStatusCode::InternalServerError => "500 Internal Server Error",
            ResponseStatusCode::NotImplemented => "501 Not Implemented",
            ResponseStatusCode::ServiceUnavailable => "503 Service Unavailable",
        }
    }
}

} // verus!
