//! Reading a request text: start line, header lines and optional body.
use vstd::prelude::*;

use crate::body::{Body, ContentType};
use crate::error::ParserError;
use crate::map::{inserted, Headers};
use crate::method::Method;
use crate::text::{
    after, ascii_lower, ascii_lowercase, ascii_upper, ascii_uppercase, before, chars_of, eq_lit,
    find_char, find_from, find_whitespace, lemma_find_from_bounds, lemma_skip_ws_bounds,
    lemma_word_end_bounds, skip_whitespace, skip_ws, slice_of, string_of, trim, trimmed, utf8_of_str, word_end,
};

verus! {

broadcast use vstd::std_specs::vec::group_vec_axioms;

/// A request: its method (with target and body) and its headers, keyed by
/// lower-case name.
#[derive(Debug)]
pub struct Request(pub Method, pub Headers);

/// What the header lines of a request text held, and where the body starts.
pub struct HeaderScan {
    pub entries: Seq<(Seq<char>, Seq<char>)>,
    pub content_type: Option<Seq<char>>,
    pub content_length: Option<Seq<char>>,
    pub body_start: int,
}

/// A request as plain values: method name, target, body and headers.
pub struct RequestView {
    pub method: Seq<char>,
    pub target: Seq<char>,
    pub body: Option<(ContentType, Seq<u8>)>,
    pub headers: Seq<(Seq<char>, Seq<char>)>,
}

/// The method name and target of a start line `METHOD target VERSION`
/// (words split by white space), or `None` when a word is missing.
pub open spec fn start_line(line: Seq<char>) -> Option<(Seq<char>, Seq<char>)> {
    let m0 = skip_ws(line, 0);
    let m1 = word_end(line, m0);
    let t0 = skip_ws(line, m1);
    let t1 = word_end(line, t0);
    let v0 = skip_ws(line, t1);
    if v0 >= line.len() {
        None
    } else {
        Some((line.subrange(m0, m1), line.subrange(t0, t1)))
    }
}

/// The lower-case, trimmed name of a header line.
pub open spec fn header_key(line: Seq<char>) -> Seq<char> {
    ascii_lower(trim(before(line, ':')))
}

/// The trimmed value of a header line: all that follows the first `:`.
pub open spec fn header_value(line: Seq<char>) -> Seq<char> {
    trim(after(line, ':'))
}

/// Records one header in the scan so far.
pub open spec fn record_header(acc: HeaderScan, k: Seq<char>, v: Seq<char>) -> HeaderScan {
    if k == "content-type"@ {
        HeaderScan { content_type: Some(v), ..acc }
    } else if k == "content-length"@ {
        HeaderScan { content_length: Some(v), ..acc }
    } else {
        HeaderScan { entries: inserted(acc.entries, k, v), ..acc }
    }
}

/// Reads the header lines of `s` from the line that starts at `p` (past the
/// end of `s` when no line is left) up to an empty line or `\r` line.
pub open spec fn scan_headers(s: Seq<char>, p: int, acc: HeaderScan) -> Result<HeaderScan, ParserError>
    decreases s.len() + 1 - p,
    via scan_headers_decreases
{
    if p < 0 || p > s.len() {
        Ok(HeaderScan { body_start: s.len() as int, ..acc })
    } else {
        let e = find_from(s, '\n', p);
        let line = s.subrange(p, e);
        if line == "\r"@ || line.len() == 0 {
            Ok(HeaderScan { body_start: if e < s.len() { e + 1 } else { s.len() as int }, ..acc })
        } else if find_from(line, ':', 0) == line.len() {
            Err(ParserError::InvalidHeader)
        } else {
            scan_headers(s, e + 1, record_header(acc, header_key(line), header_value(line)))
        }
    }
}

#[via_fn]
proof fn scan_headers_decreases(s: Seq<char>, p: int, acc: HeaderScan) {
    if 0 <= p <= s.len() {
        lemma_find_from_bounds(s, '\n', p);
    }
}

/// The scan before any header line has been read.
pub open spec fn empty_scan() -> HeaderScan {
    HeaderScan {
        entries: Seq::empty(),
        content_type: None,
        content_length: None,
        body_start: 0,
    }
}

/// The body text: from `start` up to the first NUL character or the end.
pub open spec fn body_text(s: Seq<char>, start: int) -> Seq<char> {
    s.subrange(start, find_from(s, '\0', start))
}

/// What reading the request text `s` gives.
pub open spec fn spec_parse(s: Seq<char>) -> Result<RequestView, ParserError> {
    let e0 = find_from(s, '\n', 0);
    match start_line(s.subrange(0, e0)) {
        None => Err(ParserError::InvalidStartLine),
        Some((m, target)) => match scan_headers(s, e0 + 1, empty_scan()) {
            Err(err) => Err(err),
            Ok(h) => {
                let body: Result<Option<(ContentType, Seq<u8>)>, ParserError> =
                    if h.content_type is Some && h.content_length is Some {
                        match ContentType::spec_new(h.content_type->0) {
                            Ok(ct) => Ok(Some((ct, vstd::utf8::encode_utf8(body_text(s, h.body_start))))),
                            Err(err) => Err(err),
                        }
                    } else {
                        Ok(None)
                    };
                match body {
                    Err(err) => Err(err),
                    Ok(b) => {
                        let name = ascii_upper(m);
                        match method_body(name, b) {
                            None => Err(ParserError::InvalidMethod),
                            Some(kept) => Ok(
                                RequestView { method: name, target: target, body: kept, headers: h.entries },
                            ),
                        }
                    },
                }
            },
        },
    }
}

/// For the method named `m`, the body that it keeps of `b`; `None` when `m`
/// is unknown or must carry a body and `b` is none.
pub open spec fn method_body(m: Seq<char>, b: Option<(ContentType, Seq<u8>)>) -> Option<Option<(ContentType, Seq<u8>)>> {
    if m == "GET"@ {
        Some(None)
    } else if m == "HEAD"@ {
        Some(None)
    } else if m == "POST"@ {
        if b is Some { Some(b) } else { None }
    } else if m == "PUT"@ {
        if b is Some { Some(b) } else { None }
    } else if m == "DELETE"@ {
        Some(b)
    } else if m == "CONNECT"@ {
        Some(None)
    } else if m == "OPTIONS"@ {
        Some(None)
    } else if m == "TRACE"@ {
        Some(None)
    } else if m == "PATCH"@ {
        if b is Some { Some(b) } else { None }
    } else {
        None
    }
}

/// A body as plain values.
pub open spec fn body_view(b: Option<Body>) -> Option<(ContentType, Seq<u8>)> {
    match b {
        Some(b) => Some((b.content_type, b.content@)),
        None => None,
    }
}

impl Request {
    /// The request as plain values.
    pub open spec fn view_parts(self) -> RequestView {
        RequestView {
            method: self.0.spec_name(),
            target: self.0.target()@,
            body: body_view(self.0.spec_body()),
            headers: self.1.spec_entries(),
        }
    }
}

/// An optional character vector as plain values.
pub open spec fn opt_chars(o: Option<Vec<char>>) -> Option<Seq<char>> {
    match o {
        Some(v) => Some(v@),
        None => None,
    }
}

/// Reads the method name and target of a start line.
fn get_start_line(line: &Vec<char>) -> (r: Option<(Vec<char>, Vec<char>)>)
    ensures
        match start_line(line@) {
            None => r is None,
            Some((m, t)) => r matches Some((rm, rt)) && rm@ == m && rt@ == t,
        },
{
    let n = line.len();
    let m0 = skip_whitespace(line, 0);
    proof { lemma_skip_ws_bounds(line@, 0); }
    let m1 = find_whitespace(line, m0);
    proof { lemma_word_end_bounds(line@, m0 as int); }
    let t0 = skip_whitespace(line, m1);
    proof { lemma_skip_ws_bounds(line@, m1 as int); }
    let t1 = find_whitespace(line, t0);
    proof { lemma_word_end_bounds(line@, t0 as int); }
    let v0 = skip_whitespace(line, t1);
    if v0 >= n {
        return None;
    }
    Some((slice_of(line, m0, m1), slice_of(line, t0, t1)))
}

/// Reads a header line into its lower-case name and its value; `None` when
/// the line has no `:`.
fn get_key_value_pair(line: &Vec<char>) -> (r: Option<(Vec<char>, Vec<char>)>)
    ensures
        find_from(line@, ':', 0) == line@.len() ==> r is None,
        find_from(line@, ':', 0) < line@.len() ==> (r matches Some((k, v)) && k@ == header_key(line@)
            && v@ == header_value(line@)),
{
    let n = line.len();
    let c = find_char(line, ':', 0);
    if c == n {
        return None;
    }
    proof { lemma_find_from_bounds(line@, ':', 0); }
    let key = ascii_lowercase(&trimmed(&slice_of(line, 0, c)));
    let value = trimmed(&slice_of(line, c + 1, n));
    Some((key, value))
}

/// The scan state held by the header loop.
pub open spec fn scan_state(h: Seq<(Seq<char>, Seq<char>)>, ct: Option<Vec<char>>, cl: Option<Vec<char>>) -> HeaderScan {
    HeaderScan { entries: h, content_type: opt_chars(ct), content_length: opt_chars(cl), body_start: 0 }
}

/// Reads the header lines that follow the start line, which ends at `e0`.
fn get_data(s: &Vec<char>, e0: usize) -> (r: Result<(Headers, Option<Vec<char>>, Option<Vec<char>>, usize), ParserError>)
    requires
        e0 <= s.len(),
    ensures
        match scan_headers(s@, e0 + 1, empty_scan()) {
            Err(err) => r == Err::<(Headers, Option<Vec<char>>, Option<Vec<char>>, usize), ParserError>(err),
            Ok(h) => r matches Ok((hs, ct, cl, bs)) && hs.spec_entries() == h.entries
                && opt_chars(ct) == h.content_type && opt_chars(cl) == h.content_length
                && bs == h.body_start,
        },
        r matches Ok((_, _, _, bs)) ==> bs <= s.len(),
{
    let n = s.len();
    let mut headers = Headers::new();
    let mut ct: Option<Vec<char>> = None;
    let mut cl: Option<Vec<char>> = None;
    if e0 == n {
        return Ok((headers, ct, cl, n));
    }
    let mut p = e0 + 1;
    assert(scan_state(headers.spec_entries(), ct, cl) == empty_scan());
    loop
        invariant
            p <= n == s.len(),
            scan_headers(s@, p as int, scan_state(headers.spec_entries(), ct, cl))
                == scan_headers(s@, e0 + 1, empty_scan()),
        decreases n - p,
    {
        let e = find_char(s, '\n', p);
        proof {
            lemma_find_from_bounds(s@, '\n', p as int);
            reveal_strlit("\r");
        }
        let line = slice_of(s, p, e);
        if line.len() == 0 || (line.len() == 1 && line[0] == '\r') {
            assert(line@.len() == 0 || line@ == "\r"@);
            let bs = if e < n { e + 1 } else { n };
            return Ok((headers, ct, cl, bs));
        }
        assert(line@ != "\r"@);
        let ghost before_state = scan_state(headers.spec_entries(), ct, cl);
        assert(line@ == s@.subrange(p as int, e as int));
        proof { lemma_find_from_bounds(line@, ':', 0); }
        assert(find_from(s@, '\n', p as int) == e);
        assert(!(p < 0 || p > s@.len()));
        let (k, v) = match get_key_value_pair(&line) {
            None => {
                assert(scan_headers(s@, p as int, before_state) == Err::<HeaderScan, ParserError>(ParserError::InvalidHeader));
                return Err(ParserError::InvalidHeader);
            },
            Some(kv) => kv,
        };
        assert(scan_headers(s@, p as int, before_state) == scan_headers(s@, e + 1, record_header(before_state, k@, v@)));
        if eq_lit(&k, "content-type") {
            ct = Some(v);
        } else if eq_lit(&k, "content-length") {
            cl = Some(v);
        } else {
            headers.insert(string_of(&k), string_of(&v));
        }
        assert(scan_state(headers.spec_entries(), ct, cl) == record_header(before_state, k@, v@));
        if e == n {
            assert(scan_headers(s@, e + 1, scan_state(headers.spec_entries(), ct, cl)) == Ok::<HeaderScan, ParserError>(HeaderScan { body_start: n as int, ..scan_state(headers.spec_entries(), ct, cl) }));
            return Ok((headers, ct, cl, n));
        }
        p = e + 1;
    }
}

impl Request {
    /// Reads a request text: a start line `METHOD target VERSION`, then
    /// `name: value` header lines up to an empty (or `\r`) line. When both
    /// `content-type` and `content-length` are given, the text that follows,
    /// up to the first NUL character, is the body.
    pub fn from_str(text: &str) -> (r: Result<Request, ParserError>)
        ensures
            match spec_parse(text@) {
                Ok(v) => r matches Ok(req) && req.view_parts() == v,
                Err(err) => r == Err::<Request, ParserError>(err),
            },
    {
        let s = chars_of(text);
        let n = s.len();
        let e0 = find_char(&s, '\n', 0);
        proof { lemma_find_from_bounds(s@, '\n', 0); }
        let line = slice_of(&s, 0, e0);
        let (m, t) = match get_start_line(&line) {
            None => return Err(ParserError::InvalidStartLine),
            Some(mt) => mt,
        };
        let (headers, ct, cl, bs) = match get_data(&s, e0) {
            Err(err) => return Err(err),
            Ok(h) => h,
        };
        let body = match (ct, cl) {
            (Some(ctv), Some(_)) => {
                let cts = string_of(&ctv);
                let content_type = match ContentType::new(cts.as_str()) {
                    Err(err) => return Err(err),
                    Ok(c) => c,
                };
                let q = find_char(&s, '\0', bs);
                proof { lemma_find_from_bounds(s@, '\0', bs as int); }
                let bt = string_of(&slice_of(&s, bs, q));
                Some(Body { content_type, content: utf8_of_str(bt.as_str()) })
            },
            _ => None,
        };
        let name = ascii_uppercase(&m);
        match Method::new(&name, string_of(&t), body) {
            Err(err) => Err(err),
            Ok(method) => Ok(Request(method, headers)),
        }
    }
}

} // verus!
