//! Responses and their bytes on the wire.
use vstd::prelude::*;

use crate::body::{Body, ContentType};
use crate::request::body_view;
use crate::map::Headers;
use crate::status::ResponseStatusCode;
use crate::text::{push_str, utf8_of};

verus! {

broadcast use vstd::std_specs::vec::group_vec_axioms;

/// A response: status, headers and optional body.
#[derive(Debug)]
pub struct Response {
    pub status: ResponseStatusCode,
    pub header: Headers,
    pub body: Option<Body>,
}

/// The decimal digit for `d` (below 10).
pub open spec fn digit(d: nat) -> char {
    if d == 0 { '0' } else if d == 1 { '1' } else if d == 2 { '2' } else if d == 3 { '3' }
    else if d == 4 { '4' } else if d == 5 { '5' } else if d == 6 { '6' } else if d == 7 { '7' }
    else if d == 8 { '8' } else { '9' }
}

/// `n` written in decimal, without leading zeros.
pub open spec fn decimal(n: nat) -> Seq<char>
    decreases n,
{
    if n < 10 {
        seq![digit(n)]
    } else {
        decimal(n / 10).push(digit(n % 10))
    }
}

/// The lines `name: value\r\n` of the headers, in order.
pub open spec fn header_lines(h: Seq<(Seq<char>, Seq<char>)>) -> Seq<char>
    decreases h.len(),
{
    if h.len() == 0 {
        Seq::empty()
    } else {
        header_lines(h.drop_last()) + h.last().0 + ": "@ + h.last().1 + "\r\n"@
    }
}

/// The text of a response before its body bytes, from its status, header
/// entries and body.
pub open spec fn head_text_of(
    status: ResponseStatusCode,
    headers: Seq<(Seq<char>, Seq<char>)>,
    body: Option<(ContentType, Seq<u8>)>,
) -> Seq<char> {
    let start = "HTTP/1.1 "@ + status.spec_to_string() + "\r\n"@ + header_lines(headers);
    match body {
        Some((ct, content)) => start + "Content-Length: "@ + decimal(content.len()) + "\r\n"@
            + "Content-Type: "@ + ct.spec_to_string() + "\r\n"@ + "\r\n"@,
        None => start,
    }
}

/// The bytes of a response from its status, header entries and body: the
/// head in UTF-8, then the body bytes.
pub open spec fn serialized_of(
    status: ResponseStatusCode,
    headers: Seq<(Seq<char>, Seq<char>)>,
    body: Option<(ContentType, Seq<u8>)>,
) -> Seq<u8> {
    match body {
        Some((_, content)) => vstd::utf8::encode_utf8(head_text_of(status, headers, body)) + content,
        None => vstd::utf8::encode_utf8(head_text_of(status, headers, body)),
    }
}

/// The text of a response before its body bytes.
pub open spec fn head_text(r: Response) -> Seq<char> {
    head_text_of(r.status, r.header.spec_entries(), body_view(r.body))
}

/// The bytes of a response.
pub open spec fn serialized(r: Response) -> Seq<u8> {
    serialized_of(r.status, r.header.spec_entries(), body_view(r.body))
}

fn digit_char(d: usize) -> (c: char)
    requires
        d < 10,
    ensures
        c == digit(d as nat),
{
    if d == 0 { '0' } else if d == 1 { '1' } else if d == 2 { '2' } else if d == 3 { '3' }
    else if d == 4 { '4' } else if d == 5 { '5' } else if d == 6 { '6' } else if d == 7 { '7' }
    else if d == 8 { '8' } else { '9' }
}

/// Appends `n` in decimal.
fn push_decimal(v: &mut Vec<char>, n: usize)
    ensures
        final(v)@ == old(v)@ + decimal(n as nat),
    decreases n,
{
    if n < 10 {
        v.push(digit_char(n));
        assert(final(v)@ =~= old(v)@ + decimal(n as nat));
    } else {
        push_decimal(v, n / 10);
        v.push(digit_char(n % 10));
        assert(final(v)@ =~= old(v)@ + decimal(n as nat));
    }
}

impl Response {
    /// The bytes sent for this response: the status line, one line per
    /// header, then, with a body, its `Content-Length` and `Content-Type`
    /// lines, an empty line and the body bytes.
    pub fn as_bytes(&self) -> (r: Vec<u8>)
        ensures
            r@ == serialized(*self),
    {
        let mut head: Vec<char> = Vec::new();
        push_str(&mut head, "HTTP/1.1 ");
        push_str(&mut head, self.status.text());
        push_str(&mut head, "\r\n");
        let n = self.header.len();
        let mut i: usize = 0;
        while i < n
            invariant
                i <= n == self.header.spec_entries().len(),
                head@ == "HTTP/1.1 "@ + self.status.spec_to_string() + "\r\n"@
                    + header_lines(self.header.spec_entries().subrange(0, i as int)),
            decreases n - i,
        {
            let ghost prev = head@;
            push_str(&mut head, self.header.key_at(i).as_str());
            push_str(&mut head, ": ");
            push_str(&mut head, self.header.value_at(i).as_str());
            push_str(&mut head, "\r\n");
            proof {
                let h = self.header.spec_entries().subrange(0, i + 1);
                assert(h.drop_last() =~= self.header.spec_entries().subrange(0, i as int));
            }
            i = i + 1;
        }
        assert(self.header.spec_entries().subrange(0, n as int) =~= self.header.spec_entries());
        match &self.body {
            Some(b) => {
                push_str(&mut head, "Content-Length: ");
                push_decimal(&mut head, b.content.len());
                push_str(&mut head, "\r\n");
                push_str(&mut head, "Content-Type: ");
                let ct = b.content_type.to_string();
                push_str(&mut head, ct.as_str());
                push_str(&mut head, "\r\n");
                push_str(&mut head, "\r\n");
                let mut out = utf8_of(&head);
                let mut j: usize = 0;
                let ghost start = out@;
                while j < b.content.len()
                    invariant
                        j <= b.content@.len(),
                        out@ == start + b.content@.subrange(0, j as int),
                    decreases b.content@.len() - j,
                {
                    out.push(b.content[j]);
                    j = j + 1;
                    assert(out@ =~= start + b.content@.subrange(0, j as int));
                }
                assert(b.content@.subrange(0, b.content@.len() as int) == b.content@);
                assert(head@ =~= head_text(*self));
                out
            },
            None => {
                assert(head@ =~= head_text(*self));
                utf8_of(&head)
            },
        }
    }
}

/// The bytes of a response with a body end with exactly the body bytes,
/// after a head whose `Content-Length` line gives their number.
pub proof fn lemma_content_length(
    status: ResponseStatusCode,
    headers: Seq<(Seq<char>, Seq<char>)>,
    ct: ContentType,
    content: Seq<u8>,
)
    ensures
        ({
            let bytes = serialized_of(status, headers, Some((ct, content)));
            &&& bytes == vstd::utf8::encode_utf8(head_text_of(status, headers, Some((ct, content)))) + content
            &&& bytes.subrange(bytes.len() - content.len(), bytes.len() as int) == content
            &&& head_text_of(status, headers, Some((ct, content))) == "HTTP/1.1 "@ + status.spec_to_string()
                + "\r\n"@ + header_lines(headers) + "Content-Length: "@ + decimal(content.len()) + "\r\n"@
                + "Content-Type: "@ + ct.spec_to_string() + "\r\n"@ + "\r\n"@
        }),
{
    let bytes = serialized_of(status, headers, Some((ct, content)));
    assert(bytes.subrange(bytes.len() - content.len(), bytes.len() as int) =~= content);
}

} // verus!
