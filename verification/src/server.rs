//! Framing of messages on the socket.
//!
//! Messages are JSON texts, one per line. A second framing puts the length
//! of the text before it, as four bytes with the highest first.

use crate::api::{ApiError, Response};
use crate::text::concat2;
use vstd::prelude::*;

verus! {

/// The position of the first line feed of `buffer`, or its length.
pub open spec fn line_end(buffer: Seq<u8>) -> int
    decreases buffer.len(),
{
    if buffer.len() == 0 {
        0
    } else if buffer[0] == 10 {
        0
    } else {
        1 + line_end(buffer.drop_first())
    }
}

/// The first line of `buffer` without its line feed, if a whole line is
/// there, and how many bytes it takes with its line feed.
pub open spec fn first_line(buffer: Seq<u8>) -> Option<(Seq<u8>, int)> {
    let k = line_end(buffer);
    if 0 <= k < buffer.len() {
        Some((buffer.take(k), k + 1))
    } else {
        None
    }
}

/// Takes the first line off a buffer of received bytes: the line without
/// its line feed, and the number of bytes used. Nothing is taken while no
/// line feed has arrived.
pub fn take_line(buffer: &Vec<u8>) -> (r: Option<(Vec<u8>, usize)>)
    ensures
        match first_line(buffer@) {
            Some((line, used)) => r matches Some(x) && x.0@ == line && x.1 == used,
            None => r is None,
        },
{
    let mut i: usize = 0;
    let mut line: Vec<u8> = Vec::new();
    assert(buffer@.skip(0) =~= buffer@);
    while i < buffer.len() && buffer[i] != 10
        invariant
            i <= buffer.len(),
            line@ == buffer@.take(i as int),
            line_end(buffer@) == i + line_end(buffer@.skip(i as int)),
        decreases buffer.len() - i,
    {
        proof {
            let rest = buffer@.skip(i as int);
            assert(rest[0] == buffer@[i as int]);
            assert(rest.drop_first() =~= buffer@.skip(i + 1));
        }
        line.push(buffer[i]);
        i += 1;
        assert(line@ =~= buffer@.take(i as int));
    }
    proof {
        let rest = buffer@.skip(i as int);
        if i < buffer.len() {
            assert(rest[0] == buffer@[i as int]);
        }
    }
    if i < buffer.len() {
        Some((line, i + 1))
    } else {
        None
    }
}

/// A message as one line: its bytes and a line feed.
pub fn line_of(message: &Vec<u8>) -> (r: Vec<u8>)
    ensures
        r@ == message@.push(10u8),
{
    let mut out: Vec<u8> = Vec::new();
    let mut i: usize = 0;
    while i < message.len()
        invariant
            i <= message.len(),
            out@ == message@.take(i as int),
        decreases message.len() - i,
    {
        out.push(message[i]);
        i += 1;
        assert(out@ =~= message@.take(i as int));
    }
    assert(message@.take(message.len() as int) =~= message@);
    out.push(10);
    out
}

/// A message without a line feed comes back from its line as it went in.
pub proof fn lemma_line_round_trip(message: Seq<u8>, rest: Seq<u8>)
    requires
        forall|i: int| 0 <= i < message.len() ==> message[i] != 10,
    ensures
        first_line(message.push(10u8) + rest) == Some((message, message.len() as int + 1)),
    decreases message.len(),
{
    let b = message.push(10u8) + rest;
    if message.len() == 0 {
        assert(b[0] == 10);
        assert(b.take(0) =~= message);
    } else {
        assert(b[0] == message[0]);
        let tail = message.drop_first();
        assert(b.drop_first() =~= tail.push(10u8) + rest);
        assert forall|i: int| 0 <= i < tail.len() implies tail[i] != 10 by {
            assert(tail[i] == message[i + 1]);
        }
        lemma_line_round_trip(tail, rest);
        let k = line_end(b.drop_first());
        assert(k == tail.len());
        assert(b.take(k + 1) =~= message);
    }
}

/// The length that the first four bytes of a frame give.
pub open spec fn frame_length(buffer: Seq<u8>) -> int {
    buffer[0] as int * 16777216 + buffer[1] as int * 65536 + buffer[2] as int * 256
        + buffer[3] as int
}

/// The payload of the first frame of `buffer`, if the whole frame is there,
/// and how many bytes the frame takes.
pub open spec fn first_frame(buffer: Seq<u8>) -> Option<(Seq<u8>, int)> {
    if buffer.len() < 4 {
        None
    } else if buffer.len() < 4 + frame_length(buffer) {
        None
    } else {
        Some((buffer.subrange(4, 4 + frame_length(buffer)), 4 + frame_length(buffer)))
    }
}

/// The length-prefixed framing of messages.
#[derive(Debug, Clone, Copy, PartialEq, Eq, Structural)]
pub struct JsonCodec;

impl JsonCodec {
    /// Takes the first frame off a buffer of received bytes: its payload,
    /// and the number of bytes used. Nothing is taken while the frame is
    /// incomplete.
    pub fn decode(&self, buffer: &Vec<u8>) -> (r: Option<(Vec<u8>, usize)>)
        requires
            buffer@.len() <= usize::MAX - 4,
        ensures
            match first_frame(buffer@) {
                Some((payload, used)) => r matches Some(x) && x.0@ == payload && x.1 == used,
                None => r is None,
            },
    {
        if buffer.len() < 4 {
            return None;
        }
        let len: u64 = buffer[0] as u64 * 16777216 + buffer[1] as u64 * 65536 + buffer[2] as u64
            * 256 + buffer[3] as u64;
        if (buffer.len() as u64) < 4 + len {
            return None;
        }
        let end: usize = 4 + len as usize;
        let mut payload: Vec<u8> = Vec::new();
        let mut i: usize = 4;
        while i < end
            invariant
                4 <= i <= end <= buffer.len(),
                payload@ == buffer@.subrange(4, i as int),
            decreases end - i,
        {
            payload.push(buffer[i]);
            i += 1;
            assert(payload@ =~= buffer@.subrange(4, i as int));
        }
        Some((payload, end))
    }

    /// A payload as a frame: its length in four bytes, then the payload.
    pub fn encode(&self, payload: &Vec<u8>) -> (r: Vec<u8>)
        requires
            payload@.len() < 4294967296,
        ensures
            r@.len() == 4 + payload@.len(),
            frame_length(r@) == payload@.len(),
            r@.subrange(4, r@.len() as int) == payload@,
    {
        let len: u64 = payload.len() as u64;
        let mut out: Vec<u8> = Vec::new();
        out.push((len / 16777216) as u8);
        out.push((len / 65536 % 256) as u8);
        out.push((len / 256 % 256) as u8);
        out.push((len % 256) as u8);
        let mut i: usize = 0;
        while i < payload.len()
            invariant
                i <= payload.len(),
                out@.len() == 4 + i,
                out@.take(4) == seq![
                    (len / 16777216) as u8,
                    (len / 65536 % 256) as u8,
                    (len / 256 % 256) as u8,
                    (len % 256) as u8,
                ],
                out@.subrange(4, 4 + i as int) == payload@.take(i as int),
            decreases payload.len() - i,
        {
            let ghost before = out@;
            out.push(payload[i]);
            i += 1;
            assert(out@.take(4) =~= before.take(4));
            assert(out@.subrange(4, 4 + i as int) =~= payload@.take(i as int));
        }
        proof {
            assert(payload@.take(payload.len() as int) =~= payload@);
            assert(out@[0] == out@.take(4)[0]);
            assert(out@[1] == out@.take(4)[1]);
            assert(out@[2] == out@.take(4)[2]);
            assert(out@[3] == out@.take(4)[3]);
        }
        out
    }
}

/// A payload comes back from its frame as it went in, whatever follows the
/// frame.
pub proof fn lemma_frame_round_trip(frame: Seq<u8>, payload: Seq<u8>, rest: Seq<u8>)
    requires
        frame.len() == 4 + payload.len(),
        frame_length(frame) == payload.len(),
        frame.subrange(4, frame.len() as int) == payload,
    ensures
        first_frame(frame + rest) == Some((payload, 4 + payload.len() as int)),
{
    let b = frame + rest;
    assert(b[0] == frame[0] && b[1] == frame[1] && b[2] == frame[2] && b[3] == frame[3]);
    assert(b.subrange(4, 4 + frame_length(b)) =~= payload);
}

/// The answer to a message that is no request: a 400 that says why. The
/// connection goes on.
pub fn invalid_request(reason: &str) -> (r: Response)
    ensures
        r.status == 400,
        r.data is None,
        r.error matches Some(e) && e.code@ == "INVALID_REQUEST"@ && e.message@
            == "Invalid request format: "@ + reason@,
{
    Response::error(400, ApiError::new("INVALID_REQUEST", concat2("Invalid request format: ", reason)))
}

/// The answer where a response cannot be written: a 500 that says why.
pub fn serialization_error(reason: &str) -> (r: Response)
    ensures
        r.status == 500,
        r.data is None,
        r.error matches Some(e) && e.code@ == "SERIALIZATION_ERROR"@ && e.message@
            == "Failed to serialize response: "@ + reason@,
{
    Response::error(
        500,
        ApiError::new("SERIALIZATION_ERROR", concat2("Failed to serialize response: ", reason)),
    )
}

/// How many requests a connection serves: one. After its answer the
/// connection is closed.
pub fn closes_after(answers_sent: u64) -> (r: bool)
    ensures
        r == (answers_sent >= 1),
{
    answers_sent >= 1
}

} // verus!
