//! The compression stage: encoding a response body as the client accepts,
//! then serialising the response.
use vstd::prelude::*;

use std::io::Write;

use flate2::write::{DeflateEncoder, GzEncoder, ZlibEncoder};
use flate2::Compression;

use crate::body::Body;
use crate::map::{inserted, lookup};
use crate::request::{body_view, Request};
use crate::response::{lemma_content_length, serialized, serialized_of, Response};
use crate::setting::ServerSetting;
use crate::text::{append_str, chars_of, eq_lit, find_char, find_from, lemma_find_from_bounds, slice_of, trim, trimmed};

verus! {

broadcast use vstd::std_specs::vec::group_vec_axioms;

/// What flate2's gzip encoder, at level none gives for `data`: the
/// encoded stream, or `None` when the encoder reports an error.
pub uninterp spec fn gzip_outcome(data: Seq<u8>) -> Option<Seq<u8>>;

/// What flate2's raw deflate encoder, at the default level gives for `data`: the
/// encoded stream, or `None` when the encoder reports an error.
pub uninterp spec fn deflate_outcome(data: Seq<u8>) -> Option<Seq<u8>>;

/// What flate2's zlib encoder, at the default level gives for `data`: the
/// encoded stream, or `None` when the encoder reports an error.
pub uninterp spec fn zlib_outcome(data: Seq<u8>) -> Option<Seq<u8>>;

/// An optional byte vector as plain values.
pub open spec fn opt_bytes(o: Option<Vec<u8>>) -> Option<Seq<u8>> {
    match o {
        Some(v) => Some(v@),
        None => None,
    }
}

/// Relies on flate2's `write::GzEncoder` (level none) over a `Vec`: the gzip
/// stream for `data`, or `None` when writing or finishing failed.
#[verifier::external_body]
fn gzip(data: &Vec<u8>) -> (r: Option<Vec<u8>>)
    ensures
        opt_bytes(r) == gzip_outcome(data@),
{
    let mut encoder = GzEncoder::new(Vec::new(), Compression::none());
    if let Err(_) = encoder.write_all(data) {
        return None;
    }
    match encoder.finish() {
        Ok(v) => Some(v),
        Err(_) => None,
    }
}

/// Relies on flate2's `write::DeflateEncoder` (default level) over a `Vec`:
/// the raw deflate stream for `data`, or `None` when writing or finishing
/// failed.
#[verifier::external_body]
fn deflate(data: &Vec<u8>) -> (r: Option<Vec<u8>>)
    ensures
        opt_bytes(r) == deflate_outcome(data@),
{
    let mut encoder = DeflateEncoder::new(Vec::new(), Compression::default());
    if let Err(_) = encoder.write_all(data) {
        return None;
    }
    match encoder.finish() {
        Ok(v) => Some(v),
        Err(_) => None,
    }
}

/// Relies on flate2's `write::ZlibEncoder` (default level) over a `Vec`: the
/// zlib stream for `data`, or `None` when writing or finishing failed.
#[verifier::external_body]
fn zlib(data: &Vec<u8>) -> (r: Option<Vec<u8>>)
    ensures
        opt_bytes(r) == zlib_outcome(data@),
{
    let mut encoder = ZlibEncoder::new(Vec::new(), Compression::default());
    if let Err(_) = encoder.write_all(data) {
        return None;
    }
    match encoder.finish() {
        Ok(v) => Some(v),
        Err(_) => None,
    }
}

/// A content encoding that the server can apply.
#[derive(Debug, Clone, Copy, PartialEq, Eq, Structural)]
pub enum Encoding {
    Gzip,
    Deflate,
    Zlib,
}

impl Encoding {
    /// The encoding's token in `Accept-Encoding` and `Content-Encoding`.
    pub open spec fn spec_name(self) -> Seq<char> {
        match self {
            Encoding::Gzip => "gzip"@,
            Encoding::Deflate => "deflate"@,
            Encoding::Zlib => "zlib"@,
        }
    }

    /// The encoding named by `token`, if any.
    pub open spec fn spec_from_token(token: Seq<char>) -> Option<Encoding> {
        if token == "gzip"@ {
            Some(Encoding::Gzip)
        } else if token == "deflate"@ {
            Some(Encoding::Deflate)
        } else if token == "zlib"@ {
            Some(Encoding::Zlib)
        } else {
            None
        }
    }

    /// The encoded form of `data`, or `None` when the encoder fails.
    pub open spec fn spec_outcome(self, data: Seq<u8>) -> Option<Seq<u8>> {
        match self {
            Encoding::Gzip => gzip_outcome(data),
            Encoding::Deflate => deflate_outcome(data),
            Encoding::Zlib => zlib_outcome(data),
        }
    }

    /// The encoding's token.
    pub fn name(&self) -> (r: &'static str)
        ensures
            r@ == self.spec_name(),
    {
        match self {
            Encoding::Gzip => "gzip",
            Encoding::Deflate => "deflate",
            Encoding::Zlib => "zlib",
        }
    }

    /// The encoding named by `token`, if any.
    pub fn from_token(token: &Vec<char>) -> (r: Option<Encoding>)
        ensures
            r == Encoding::spec_from_token(token@),
    {
        if eq_lit(token, "gzip") {
            Some(Encoding::Gzip)
        } else if eq_lit(token, "deflate") {
            Some(Encoding::Deflate)
        } else if eq_lit(token, "zlib") {
            Some(Encoding::Zlib)
        } else {
            None
        }
    }

    /// Encodes `data`; `None` when the encoder failed.
    pub fn apply(&self, data: &Vec<u8>) -> (r: Option<Vec<u8>>)
        ensures
            opt_bytes(r) == self.spec_outcome(data@),
    {
        match self {
            Encoding::Gzip => gzip(data),
            Encoding::Deflate => deflate(data),
            Encoding::Zlib => zlib(data),
        }
    }
}

/// The tokens of a comma-separated list from index `start` on, each trimmed
/// of white space, in the order written.
pub open spec fn tokens_from(s: Seq<char>, start: int) -> Seq<Seq<char>>
    decreases s.len() - start,
    via tokens_from_decreases
{
    if start < 0 || start > s.len() {
        Seq::empty()
    } else {
        let i = find_from(s, ',', start);
        if i >= s.len() {
            seq![trim(s.subrange(start, s.len() as int))]
        } else {
            seq![trim(s.subrange(start, i))] + tokens_from(s, i + 1)
        }
    }
}

#[via_fn]
proof fn tokens_from_decreases(s: Seq<char>, start: int) {
    if 0 <= start <= s.len() {
        lemma_find_from_bounds(s, ',', start);
    }
}

/// The tokens of an `Accept-Encoding` value, trimmed, in the client's order.
pub open spec fn encoding_tokens(s: Seq<char>) -> Seq<Seq<char>> {
    tokens_from(s, 0)
}

/// The texts of a list of character vectors.
pub open spec fn texts(v: Seq<Vec<char>>) -> Seq<Seq<char>> {
    v.map_values(|t: Vec<char>| t@)
}

/// Splits an `Accept-Encoding` value at each `,` and trims each token.
pub fn accepted_encodings(value: &str) -> (r: Vec<Vec<char>>)
    ensures
        texts(r@) == encoding_tokens(value@),
{
    let s = chars_of(value);
    let n = s.len();
    let mut out: Vec<Vec<char>> = Vec::new();
    let mut p: usize = 0;
    assert(texts(out@) + tokens_from(s@, 0) =~= tokens_from(s@, 0));
    loop
        invariant
            p <= n == s.len(),
            s@ == value@,
            texts(out@) + tokens_from(s@, p as int) == tokens_from(s@, 0),
        decreases n - p,
    {
        let i = find_char(&s, ',', p);
        proof { lemma_find_from_bounds(s@, ',', p as int); }
        let piece = trimmed(&slice_of(&s, p, i));
        let ghost prev = texts(out@);
        out.push(piece);
        assert(texts(out@) =~= prev.push(piece@));
        if i >= n {
            assert(texts(out@) =~= prev + tokens_from(s@, p as int));
            return out;
        }
        assert(texts(out@) + tokens_from(s@, i + 1) =~= prev + tokens_from(s@, p as int));
        p = i + 1;
    }
}

/// `true` when the response goes out as it is: no request, no body, or no
/// `accept-encoding` header.
pub open spec fn sent_plain(response: Response, request: Option<Request>) -> bool {
    request is None || response.body is None || lookup((request->0).1.spec_entries(), "accept-encoding"@) is None
}

/// The first token from index `i` on that names a known encoding whose
/// encoder succeeds on `content`, with the encoded bytes.
pub open spec fn choice_from(tokens: Seq<Seq<char>>, content: Seq<u8>, i: int) -> Option<(Encoding, Seq<u8>)>
    decreases tokens.len() - i,
{
    if i < 0 || i >= tokens.len() {
        None
    } else {
        match Encoding::spec_from_token(tokens[i]) {
            Some(e) => match e.spec_outcome(content) {
                Some(enc) => Some((e, enc)),
                None => choice_from(tokens, content, i + 1),
            },
            None => choice_from(tokens, content, i + 1),
        }
    }
}

/// The bytes that the compression stage sends for `response`: with the body
/// encoded by the first accepted encoding whose encoder succeeds, and a
/// `Content-Encoding` header naming it; otherwise the response as it is.
pub open spec fn spec_compression(response: Response, request: Option<Request>) -> Seq<u8> {
    if sent_plain(response, request) {
        serialized(response)
    } else {
        let tokens = encoding_tokens(lookup((request->0).1.spec_entries(), "accept-encoding"@)->0);
        let b = body_view(response.body)->0;
        match choice_from(tokens, b.1, 0) {
            None => serialized(response),
            Some((e, enc)) => serialized_of(
                response.status,
                inserted(response.header.spec_entries(), "Content-Encoding"@, e.spec_name()),
                Some((b.0, enc)),
            ),
        }
    }
}

/// Replaces the body bytes of `response` with `encoded`, the body encoded by
/// `e`, and names `e` in the `Content-Encoding` header.
pub fn with_encoding(response: Response, e: Encoding, encoded: Vec<u8>) -> (r: Response)
    requires
        response.body is Some,
    ensures
        r.status == response.status,
        r.header.spec_entries() == inserted(response.header.spec_entries(), "Content-Encoding"@, e.spec_name()),
        body_view(r.body) == Some(((response.body->0).content_type, encoded@)),
{
    let mut response = response;
    let mut name = String::new();
    append_str(&mut name, e.name());
    let mut key = String::new();
    append_str(&mut key, "Content-Encoding");
    response.header.insert(key, name);
    let content_type = response.body.as_ref().unwrap().content_type;
    response.body = Some(Body { content_type, content: encoded });
    response
}

/// The bytes of `response`, uncompressed.
pub fn no_compression(response: Response, _request: Option<Request>, _setting: ServerSetting) -> (r: Vec<u8>)
    ensures
        r@ == serialized(response),
{
    response.as_bytes()
}

/// The bytes of `response`, its body encoded with the first token of the
/// request's `accept-encoding` that names a known encoding and whose encoder
/// succeeds; unknown tokens are skipped. Without such a token the response
/// goes out uncompressed.
#[verifier::loop_isolation(false)]
pub fn compression(response: Response, request: Option<Request>, _setting: ServerSetting) -> (r: Vec<u8>)
    ensures
        r@ == spec_compression(response, request),
{
    let ghost orig_request = request;
    let ghost orig_response = response;
    let request = match request {
        Some(r) => r,
        None => return response.as_bytes(),
    };
    let content = match &response.body {
        Some(b) => b.content.clone(),
        None => return response.as_bytes(),
    };
    let accepted = match request.1.get("accept-encoding") {
        Some(v) => accepted_encodings(v.as_str()),
        None => return response.as_bytes(),
    };
    let ghost tokens = texts(accepted@);
    assert(tokens == encoding_tokens(lookup((orig_request->0).1.spec_entries(), "accept-encoding"@)->0));
    assert(content@ == (body_view(orig_response.body)->0).1);
    let mut i: usize = 0;
    while i < accepted.len()
        invariant
            i <= accepted.len(),
            tokens == texts(accepted@),
            choice_from(tokens, content@, i as int) == choice_from(tokens, content@, 0),
        decreases accepted.len() - i,
    {
        assert(tokens[i as int] == accepted@[i as int]@);
        match Encoding::from_token(&accepted[i]) {
            Some(e) => {
                if let Some(encoded) = e.apply(&content) {
                    let encoded_response = with_encoding(response, e, encoded);
                    return encoded_response.as_bytes();
                }
            },
            None => {},
        }
        i = i + 1;
    }
    response.as_bytes()
}

/// The body bytes that the compression stage sends: the encoded bytes of the
/// chosen encoding, or the body as it is.
pub open spec fn sent_body(response: Response, request: Option<Request>) -> Seq<u8> {
    let b = body_view(response.body)->0;
    if sent_plain(response, request) {
        b.1
    } else {
        let tokens = encoding_tokens(lookup((request->0).1.spec_entries(), "accept-encoding"@)->0);
        match choice_from(tokens, b.1, 0) {
            None => b.1,
            Some((_, enc)) => enc,
        }
    }
}

/// The compressed response declares the length of the body it sends: its
/// bytes end with exactly that body, after a head whose `Content-Length` line
/// gives the body's length.
pub proof fn lemma_compressed_content_length(response: Response, request: Option<Request>)
    requires
        response.body is Some,
    ensures
        ({
            let bytes = spec_compression(response, request);
            let sent = sent_body(response, request);
            exists|hs: Seq<(Seq<char>, Seq<char>)>| bytes == #[trigger] serialized_of(
                response.status,
                hs,
                Some(((response.body->0).content_type, sent)),
            )
        }),
        ({
            let bytes = spec_compression(response, request);
            let sent = sent_body(response, request);
            bytes.subrange(bytes.len() - sent.len(), bytes.len() as int) == sent
        }),
{
    let b = body_view(response.body)->0;
    let sent = sent_body(response, request);
    let hs = if sent_plain(response, request) {
        response.header.spec_entries()
    } else {
        let tokens = encoding_tokens(lookup((request->0).1.spec_entries(), "accept-encoding"@)->0);
        match choice_from(tokens, b.1, 0) {
            None => response.header.spec_entries(),
            Some((e, _)) => inserted(response.header.spec_entries(), "Content-Encoding"@, e.spec_name()),
        }
    };
    assert(spec_compression(response, request) == serialized_of(response.status, hs, Some((b.0, sent))));
    lemma_content_length(response.status, hs, b.0, sent);
}

} // verus!
