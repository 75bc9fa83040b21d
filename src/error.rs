//! Why a request text could not be read.
use vstd::prelude::*;

verus! {

/// The ways in which a request text can be malformed.
#[derive(Debug, Clone, Copy, PartialEq, Eq, Structural)]
pub enum ParserError {
    /// The start line lacks a method, a target or a version.
    InvalidStartLine,
    /// A header line has no `:` between name and value.
    InvalidHeader,
    /// The `content-type` of a body is not a known media type.
    InvalidContentType,
    /// The method is unknown, or lacks the body that it must carry.
    InvalidMethod,
}

} // verus!
