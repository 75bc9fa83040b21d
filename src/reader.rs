//! The parser stage's decisions while a request arrives in chunks: when to
//! keep reading, when to give up, and what status a failure becomes.
use vstd::prelude::*;

use crate::request::{spec_parse, Request, RequestView};
use crate::status::ResponseStatusCode;

verus! {

broadcast use vstd::std_specs::vec::group_vec_axioms;

/// Relies on `String::from_utf8`: valid UTF-8 is taken as it is, and the
/// string keeps exactly the bytes given.
#[verifier::external_body]
fn text_of_bytes(bytes: Vec<u8>) -> (r: Option<String>)
    ensures
        vstd::utf8::valid_utf8(bytes@) ==> r is Some,
        r matches Some(s) ==> vstd::utf8::encode_utf8(s@) == bytes@,
{
    match String::from_utf8(bytes) {
        Ok(s) => Some(s),
        Err(_) => None,
    }
}

/// What a request that arrived as `bytes` comes to: bytes that are not
/// UTF-8, or a text that cannot be read, give `400 Bad Request`.
pub open spec fn bytes_outcome(bytes: Seq<u8>) -> Result<RequestView, ResponseStatusCode> {
    if !vstd::utf8::valid_utf8(bytes) {
        Err(ResponseStatusCode::BadRequest)
    } else {
        match spec_parse(vstd::utf8::decode_utf8(bytes)) {
            Ok(v) => Ok(v),
            Err(_) => Err(ResponseStatusCode::BadRequest),
        }
    }
}

/// `r` is the outcome `o`.
pub open spec fn outcome_is(r: Result<Request, ResponseStatusCode>, o: Result<RequestView, ResponseStatusCode>) -> bool {
    match o {
        Ok(v) => r matches Ok(req) && req.view_parts() == v,
        Err(code) => r == Err::<Request, ResponseStatusCode>(code),
    }
}

/// Reads the request that arrived as `bytes`.
pub fn parse_request_bytes(bytes: Vec<u8>) -> (r: Result<Request, ResponseStatusCode>)
    ensures
        outcome_is(r, bytes_outcome(bytes@)),
{
    let ghost b = bytes@;
    match text_of_bytes(bytes) {
        None => {
            Err(ResponseStatusCode::BadRequest)
        },
        Some(s) => {
            proof {
                vstd::utf8::encode_utf8_decode_utf8(s@);
                vstd::utf8::encode_utf8_valid_utf8(s@);
            }
            match Request::from_str(s.as_str()) {
                Ok(req) => Ok(req),
                Err(_) => Err(ResponseStatusCode::BadRequest),
            }
        },
    }
}

/// What happened on the connection since the last step.
pub enum ReadEvent {
    /// A chunk of bytes arrived.
    Chunk(Vec<u8>),
    /// No chunk arrived within the inter-packet timeout.
    Quiet,
    /// The client finished sending.
    Closed,
    /// A read ran into the per-read timeout.
    TimedOut,
    /// A read failed in another way.
    Failed,
}

/// What the parser stage does next.
pub enum ReadStep {
    /// Keep reading.
    Continue,
    /// Stop reading; this is the outcome for the connection.
    Done(Result<Request, ResponseStatusCode>),
}

/// The bytes of one request received so far, and the most it may hold.
pub struct RequestReader {
    received: Vec<u8>,
    max_size: usize,
}

impl RequestReader {
    /// The bytes received so far.
    pub closed spec fn spec_received(&self) -> Seq<u8> {
        self.received@
    }

    /// The most bytes a request may hold.
    pub closed spec fn spec_max_size(&self) -> usize {
        self.max_size
    }

    /// Never more bytes than the limit.
    pub open spec fn wf(&self) -> bool {
        self.spec_received().len() <= self.spec_max_size()
    }

    /// A reader that has received nothing, for requests of at most
    /// `max_size` bytes.
    pub fn new(max_size: usize) -> (r: RequestReader)
        ensures
            r.spec_received() == Seq::<u8>::empty(),
            r.spec_max_size() == max_size,
            r.wf(),
    {
        RequestReader { received: Vec::new(), max_size }
    }

    /// Takes one event. A chunk that would make the request larger than the
    /// limit ends it with `413 Payload Too Large`; any other chunk is kept.
    /// When the client goes quiet or closes, what was received is read. A
    /// read timeout gives `408 Request Timeout`, any other read failure
    /// `400 Bad Request`.
    pub fn step(&mut self, event: ReadEvent) -> (r: ReadStep)
        requires
            old(self).wf(),
        ensures
            final(self).wf(),
            final(self).spec_max_size() == old(self).spec_max_size(),
            match event {
                ReadEvent::Chunk(c) => if old(self).spec_received().len() + c@.len() > old(self).spec_max_size() {
                    r matches ReadStep::Done(res) && res == Err::<Request, ResponseStatusCode>(ResponseStatusCode::PayloadTooLarge)
                } else {
                    r is Continue && final(self).spec_received() == old(self).spec_received() + c@
                },
                ReadEvent::Quiet => r matches ReadStep::Done(res) && outcome_is(res, bytes_outcome(old(self).spec_received())),
                ReadEvent::Closed => r matches ReadStep::Done(res) && outcome_is(res, bytes_outcome(old(self).spec_received())),
                ReadEvent::TimedOut => r matches ReadStep::Done(res) && res == Err::<Request, ResponseStatusCode>(ResponseStatusCode::RequestTimeout),
                ReadEvent::Failed => r matches ReadStep::Done(res) && res == Err::<Request, ResponseStatusCode>(ResponseStatusCode::BadRequest),
            },
    {
        match event {
            ReadEvent::Chunk(c) => {
                if c.len() > self.max_size - self.received.len() {
                    return ReadStep::Done(Err(ResponseStatusCode::PayloadTooLarge));
                }
                let mut i: usize = 0;
                let ghost start = self.received@;
                while i < c.len()
                    invariant
                        i <= c@.len(),
                        self.max_size == old(self).max_size,
                        start == old(self).received@,
                        start.len() + c@.len() <= self.max_size,
                        self.received@ == start + c@.subrange(0, i as int),
                    decreases c@.len() - i,
                {
                    self.received.push(c[i]);
                    i = i + 1;
                    assert(self.received@ =~= start + c@.subrange(0, i as int));
                }
                assert(c@.subrange(0, c@.len() as int) == c@);
                ReadStep::Continue
            },
            ReadEvent::Quiet | ReadEvent::Closed => {
                let mut bytes: Vec<u8> = Vec::new();
                std::mem::swap(&mut bytes, &mut self.received);
                ReadStep::Done(parse_request_bytes(bytes))
            },
            ReadEvent::TimedOut => ReadStep::Done(Err(ResponseStatusCode::RequestTimeout)),
            ReadEvent::Failed => ReadStep::Done(Err(ResponseStatusCode::BadRequest)),
        }
    }
}

} // verus!
