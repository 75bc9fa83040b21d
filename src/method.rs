//! Request methods and the target each one carries.
use vstd::prelude::*;

use crate::body::Body;
use crate::error::ParserError;
use crate::text::eq_lit;

verus! {

/// A request method with its target, and the body of a method that has one.
#[derive(Debug, Clone, PartialEq, Eq)]
pub enum Method {
    Get { file: String },
    Head { file: String },
    Post { file: String, body: Body },
    Put { file: String, body: Body },
    Delete { file: String, body: Option<Body> },
    Connect { url: String },
    Options { url: String },
    Trace { file: String },
    Patch { file: String, body: Body },
}

impl Method {
    /// The method named `m` (in upper case) for `target`. POST, PUT and PATCH
    /// must carry a body; DELETE keeps one if given; the others drop it.
    pub open spec fn spec_new(m: Seq<char>, target: String, body: Option<Body>) -> Result<Method, ParserError> {
        if m == "GET"@ {
            Ok(Method::Get { file: target })
        } else if m == "HEAD"@ {
            Ok(Method::Head { file: target })
        } else if m == "POST"@ {
            match body {
                Some(b) => Ok(Method::Post { file: target, body: b }),
                None => Err(ParserError::InvalidMethod),
            }
        } else if m == "PUT"@ {
            match body {
                Some(b) => Ok(Method::Put { file: target, body: b }),
                None => Err(ParserError::InvalidMethod),
            }
        } else if m == "DELETE"@ {
            Ok(Method::Delete { file: target, body: body })
        } else if m == "CONNECT"@ {
            Ok(Method::Connect { url: target })
        } else if m == "OPTIONS"@ {
            Ok(Method::Options { url: target })
        } else if m == "TRACE"@ {
            Ok(Method::Trace { file: target })
        } else if m == "PATCH"@ {
            match body {
                Some(b) => Ok(Method::Patch { file: target, body: b }),
                None => Err(ParserError::InvalidMethod),
            }
        } else {
            Err(ParserError::InvalidMethod)
        }
    }

    /// Builds the method named `method` (in upper case) for `target`.
    pub fn new(method: &Vec<char>, target: String, body: Option<Body>) -> (r: Result<Method, ParserError>)
        ensures
            r == Method::spec_new(method@, target, body),
    {
        if eq_lit(method, "GET") {
            Ok(Method::Get { file: target })
        } else if eq_lit(method, "HEAD") {
            Ok(Method::Head { file: target })
        } else if eq_lit(method, "POST") {
            match body {
                Some(b) => Ok(Method::Post { file: target, body: b }),
                None => Err(ParserError::InvalidMethod),
            }
        } else if eq_lit(method, "PUT") {
            match body {
                Some(b) => Ok(Method::Put { file: target, body: b }),
                None => Err(ParserError::InvalidMethod),
            }
        } else if eq_lit(method, "DELETE") {
            Ok(Method::Delete { file: target, body: body })
        } else if eq_lit(method, "CONNECT") {
            Ok(Method::Connect { url: target })
        } else if eq_lit(method, "OPTIONS") {
            Ok(Method::Options { url: target })
        } else if eq_lit(method, "TRACE") {
            Ok(Method::Trace { file: target })
        } else if eq_lit(method, "PATCH") {
            match body {
                Some(b) => Ok(Method::Patch { file: target, body: b }),
                None => Err(ParserError::InvalidMethod),
            }
        } else {
            Err(ParserError::InvalidMethod)
        }
    }

    /// The method's name, in upper case.
    pub fn name(&self) -> (r: &'static str)
        ensures
            r@ == self.spec_name(),
    {
        match self {
            Method::Get { .. } => "GET",
            Method::Head { .. } => "HEAD",
            Method::Post { .. } => "POST",
            Method::Put { .. } => "PUT",
            Method::Delete { .. } => "DELETE",
            Method::Connect { .. } => "CONNECT",
            Method::Options { .. } => "OPTIONS",
            Method::Trace { .. } => "TRACE",
            Method::Patch { .. } => "PATCH",
        }
    }

    /// The method's name, in upper case.
    pub open spec fn spec_name(self) -> Seq<char> {
        match self {
            Method::Get { .. } => "GET"@,
            Method::Head { .. } => "HEAD"@,
            Method::Post { .. } => "POST"@,
            Method::Put { .. } => "PUT"@,
            Method::Delete { .. } => "DELETE"@,
            Method::Connect { .. } => "CONNECT"@,
            Method::Options { .. } => "OPTIONS"@,
            Method::Trace { .. } => "TRACE"@,
            Method::Patch { .. } => "PATCH"@,
        }
    }

    /// The request target.
    pub open spec fn target(self) -> String {
        match self {
            Method::Get { file } => file,
            Method::Head { file } => file,
            Method::Post { file, .. } => file,
            Method::Put { file, .. } => file,
            Method::Delete { file, .. } => file,
            Method::Connect { url } => url,
            Method::Options { url } => url,
            Method::Trace { file } => file,
            Method::Patch { file, .. } => file,
        }
    }

    /// The body that the method carries, if any.
    pub open spec fn spec_body(self) -> Option<Body> {
        match self {
            Method::Post { body, .. } => Some(body),
            Method::Put { body, .. } => Some(body),
            Method::Delete { body, .. } => body,
            Method::Patch { body, .. } => Some(body),
            _ => None,
        }
    }
}

} // verus!
