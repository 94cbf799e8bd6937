//! Length-framed messages on the host/enclave byte stream: a four-byte
//! big-endian length, then that many bytes of body.

use vstd::prelude::*;

verus! {

/// The length of a frame header.
pub const HEADER_LEN: usize = 4;

/// The longest body a frame may carry, 8 MiB.
pub const MAX_FRAME_LEN: usize = 0x80_0000;

/// The header that announces a body of `n` bytes.
pub open spec fn header_of(n: u32) -> Seq<u8> {
    seq![(n >> 24u32) as u8, (n >> 16u32) as u8, (n >> 8u32) as u8, n as u8]
}

/// The length that a header announces.
pub open spec fn length_of(h: Seq<u8>) -> u32
    recommends
        h.len() >= 4,
{
    ((h[0] as u32) << 24u32) | ((h[1] as u32) << 16u32) | ((h[2] as u32) << 8u32) | (h[3] as u32)
}

/// The frame that carries `body`.
pub open spec fn frame_of(body: Seq<u8>) -> Seq<u8> {
    header_of(body.len() as u32) + body
}

/// A header reads back as the length it was written for.
pub proof fn lemma_header_round_trip(n: u32)
    ensures
        length_of(header_of(n)) == n,
{
    let b0 = (n >> 24u32) as u8;
    let b1 = (n >> 16u32) as u8;
    let b2 = (n >> 8u32) as u8;
    let b3 = n as u8;
    assert((((b0 as u32) << 24u32) | ((b1 as u32) << 16u32) | ((b2 as u32) << 8u32) | (b3 as u32))
        == n) by (bit_vector)
        requires
            b0 == (n >> 24u32) as u8,
            b1 == (n >> 16u32) as u8,
            b2 == (n >> 8u32) as u8,
            b3 == n as u8,
    ;
}

/// Why a frame could not be written or read.
#[derive(Debug, PartialEq, Eq, Structural)]
pub enum FrameError {
    /// The body is longer than [`MAX_FRAME_LEN`].
    TooLong,
}

/// What the start of a buffer holds.
#[derive(Debug)]
pub enum Decoded {
    /// Not yet a whole frame: more bytes are needed.
    Incomplete,
    /// A whole frame: its body, and how many bytes of the buffer it took.
    Frame { body: Vec<u8>, consumed: usize },
}

/// The frame that carries `body`.
pub fn encode_frame(body: &[u8]) -> (r: Result<Vec<u8>, FrameError>)
    ensures
        r is Err <==> body@.len() > MAX_FRAME_LEN,
        r is Ok ==> r->Ok_0@ == frame_of(body@),
{
    if body.len() > MAX_FRAME_LEN {
        return Err(FrameError::TooLong);
    }
    let n = body.len() as u32;
    let mut out: Vec<u8> = Vec::new();
    out.push((n >> 24u32) as u8);
    out.push((n >> 16u32) as u8);
    out.push((n >> 8u32) as u8);
    out.push(n as u8);
    let mut i: usize = 0;
    while i < body.len()
        invariant
            i <= body@.len(),
            out@ == header_of(n) + body@.subrange(0, i as int),
        decreases body@.len() - i,
    {
        out.push(body[i]);
        proof {
            assert(body@.subrange(0, i + 1) =~= body@.subrange(0, i as int).push(body@[i as int]));
        }
        i = i + 1;
        assert(out@ =~= header_of(n) + body@.subrange(0, i as int));
    }
    assert(body@.subrange(0, body@.len() as int) =~= body@);
    Ok(out)
}

/// Reads the frame at the start of `buf`, if it is all there.
pub fn decode_frame(buf: &[u8]) -> (r: Result<Decoded, FrameError>)
    ensures
        buf@.len() < HEADER_LEN ==> (r matches Ok(Decoded::Incomplete)),
        buf@.len() >= HEADER_LEN && length_of(buf@) > MAX_FRAME_LEN ==> r == Err::<
            Decoded,
            FrameError,
        >(FrameError::TooLong),
        buf@.len() >= HEADER_LEN && length_of(buf@) <= MAX_FRAME_LEN && buf@.len() < HEADER_LEN
            + length_of(buf@) ==> (r matches Ok(Decoded::Incomplete)),
        buf@.len() >= HEADER_LEN && length_of(buf@) <= MAX_FRAME_LEN && buf@.len() >= HEADER_LEN
            + length_of(buf@) ==> (r matches Ok(Decoded::Frame { body, consumed }) && consumed
            == HEADER_LEN + length_of(buf@) && body@ == buf@.subrange(
            HEADER_LEN as int,
            HEADER_LEN + length_of(buf@),
        )),
{
    if buf.len() < HEADER_LEN {
        return Ok(Decoded::Incomplete);
    }
    let n: u32 = ((buf[0] as u32) << 24u32) | ((buf[1] as u32) << 16u32) | ((buf[2] as u32)
        << 8u32) | (buf[3] as u32);
    if n as usize > MAX_FRAME_LEN {
        return Err(FrameError::TooLong);
    }
    let len = n as usize;
    if buf.len() - HEADER_LEN < len {
        return Ok(Decoded::Incomplete);
    }
    let mut body: Vec<u8> = Vec::new();
    let mut i: usize = 0;
    while i < len
        invariant
            i <= len,
            HEADER_LEN + len <= buf@.len(),
            buf@.len() <= usize::MAX,
            body@ == buf@.subrange(HEADER_LEN as int, HEADER_LEN + i),
        decreases len - i,
    {
        body.push(buf[HEADER_LEN + i]);
        i = i + 1;
        assert(body@ =~= buf@.subrange(HEADER_LEN as int, HEADER_LEN + i));
    }
    Ok(Decoded::Frame { body, consumed: HEADER_LEN + len })
}

/// A frame followed by any bytes reads back as the body it was written for,
/// taking exactly its own bytes.
pub proof fn lemma_frame_round_trip(body: Seq<u8>, rest: Seq<u8>)
    requires
        body.len() <= MAX_FRAME_LEN,
    ensures
        length_of(frame_of(body) + rest) == body.len(),
        (frame_of(body) + rest).subrange(HEADER_LEN as int, HEADER_LEN + body.len()) == body,
        (frame_of(body) + rest).len() >= HEADER_LEN + body.len(),
{
    let s = frame_of(body) + rest;
    lemma_header_round_trip(body.len() as u32);
    assert(s[0] == header_of(body.len() as u32)[0]);
    assert(s[1] == header_of(body.len() as u32)[1]);
    assert(s[2] == header_of(body.len() as u32)[2]);
    assert(s[3] == header_of(body.len() as u32)[3]);
    assert(s.subrange(HEADER_LEN as int, HEADER_LEN + body.len()) =~= body);
}

} // verus!
