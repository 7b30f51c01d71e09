//! Framing of the handshake messages: each message travels as a 4-byte
//! big-endian length followed by that many bytes of serialized message.
use vstd::prelude::*;

verus! {

/// Number of bytes of the length prefix.
pub const HEADER_LEN: usize = 4;

/// The big-endian bytes of `n`.
pub open spec fn be32_bytes(n: u32) -> Seq<u8> {
    seq![(n >> 24u32) as u8, ((n >> 16u32) & 0xffu32) as u8, ((n >> 8u32) & 0xffu32) as u8, (n & 0xffu32) as u8]
}

/// The number whose big-endian bytes are `b0 b1 b2 b3`.
pub open spec fn be32_value(b0: u8, b1: u8, b2: u8, b3: u8) -> u32 {
    ((b0 as u32) << 24u32) | ((b1 as u32) << 16u32) | ((b2 as u32) << 8u32) | (b3 as u32)
}

/// The frame carrying `payload`.
pub open spec fn frame_spec(payload: Seq<u8>) -> Seq<u8> {
    be32_bytes(payload.len() as u32) + payload
}

/// The payload length a buffer of at least four bytes announces.
pub open spec fn announced_len(buf: Seq<u8>) -> int {
    be32_value(buf[0], buf[1], buf[2], buf[3]) as int
}

/// The result of reading a frame from the front of a buffer.
pub enum FrameDecode {
    /// The buffer holds fewer bytes than the frame; it needs `total` in all.
    NeedMore { total: u64 },
    /// The frame's payload and the number of bytes the frame took.
    Complete { payload: Vec<u8>, consumed: usize },
}

/// Builds the frame for `payload`.
pub fn encode_frame(payload: &Vec<u8>) -> (r: Vec<u8>)
    requires
        payload@.len() <= u32::MAX,
    ensures
        r@ == frame_spec(payload@),
{
    let n = payload.len() as u32;
    let mut r: Vec<u8> = Vec::new();
    r.push((n >> 24u32) as u8);
    r.push(((n >> 16u32) & 0xffu32) as u8);
    r.push(((n >> 8u32) & 0xffu32) as u8);
    r.push((n & 0xffu32) as u8);
    let mut i: usize = 0;
    while i < payload.len()
        invariant
            n == payload@.len() as u32,
            0 <= i <= payload@.len(),
            r@ == be32_bytes(n) + payload@.subrange(0, i as int),
        decreases payload@.len() - i,
    {
        r.push(payload[i]);
        assert(payload@.subrange(0, i + 1) == payload@.subrange(0, i as int).push(payload@[i as int]));
        i = i + 1;
    }
    assert(payload@.subrange(0, payload@.len() as int) == payload@);
    r
}

/// Reads the frame at the front of `buf`: its payload when the whole frame
/// is there, else how many bytes the frame needs in all. Bytes after the
/// frame are left for the next one.
pub fn decode_frame(buf: &Vec<u8>) -> (r: FrameDecode)
    ensures
        buf@.len() < 4 ==> r == (FrameDecode::NeedMore { total: 4 }),
        buf@.len() >= 4 && buf@.len() < 4 + announced_len(buf@) ==> (r matches FrameDecode::NeedMore { total }
            && total == 4 + announced_len(buf@)),
        buf@.len() >= 4 && buf@.len() >= 4 + announced_len(buf@) ==> (r matches FrameDecode::Complete { payload, consumed }
            && consumed == 4 + announced_len(buf@)
            && payload@ == buf@.subrange(4, consumed as int)),
{
    if buf.len() < HEADER_LEN {
        return FrameDecode::NeedMore { total: 4 };
    }
    let n: u32 = ((buf[0] as u32) << 24u32) | ((buf[1] as u32) << 16u32) | ((buf[2] as u32) << 8u32)
        | (buf[3] as u32);
    assert(n as int == announced_len(buf@));
    if (buf.len() - HEADER_LEN) < n as usize {
        return FrameDecode::NeedMore { total: n as u64 + 4 };
    }
    let end = n as usize + HEADER_LEN;
    let mut payload: Vec<u8> = Vec::with_capacity(n as usize);
    let mut i: usize = HEADER_LEN;
    while i < end
        invariant
            4 <= i <= end,
            end <= buf@.len(),
            payload@ == buf@.subrange(4, i as int),
        decreases end - i,
    {
        payload.push(buf[i]);
        assert(buf@.subrange(4, i + 1) == buf@.subrange(4, i as int).push(buf@[i as int]));
        i = i + 1;
    }
    FrameDecode::Complete { payload, consumed: end }
}

/// The bytes of a length survive the trip through the prefix.
proof fn lemma_be32_round_trip(n: u32)
    ensures
        be32_value(be32_bytes(n)[0], be32_bytes(n)[1], be32_bytes(n)[2], be32_bytes(n)[3]) == n,
{
    let b0 = (n >> 24u32) as u8;
    let b1 = ((n >> 16u32) & 0xffu32) as u8;
    let b2 = ((n >> 8u32) & 0xffu32) as u8;
    let b3 = (n & 0xffu32) as u8;
    assert(((b0 as u32) << 24u32) | ((b1 as u32) << 16u32) | ((b2 as u32) << 8u32) | (b3 as u32) == n)
        by (bit_vector)
        requires
            b0 == (n >> 24u32) as u8,
            b1 == ((n >> 16u32) & 0xffu32) as u8,
            b2 == ((n >> 8u32) & 0xffu32) as u8,
            b3 == (n & 0xffu32) as u8,
    ;
}

/// A frame read back from the front of a buffer gives its payload, whatever
/// bytes follow it.
pub proof fn lemma_frame_round_trip(payload: Seq<u8>, rest: Seq<u8>)
    requires
        payload.len() <= u32::MAX,
    ensures
        ({
            let buf = frame_spec(payload) + rest;
            &&& buf.len() >= 4
            &&& announced_len(buf) == payload.len()
            &&& buf.len() >= 4 + announced_len(buf)
            &&& buf.subrange(4, 4 + payload.len() as int) == payload
        }),
{
    let buf = frame_spec(payload) + rest;
    lemma_be32_round_trip(payload.len() as u32);
    assert(buf[0] == be32_bytes(payload.len() as u32)[0]);
    assert(buf[1] == be32_bytes(payload.len() as u32)[1]);
    assert(buf[2] == be32_bytes(payload.len() as u32)[2]);
    assert(buf[3] == be32_bytes(payload.len() as u32)[3]);
    assert(buf.subrange(4, 4 + payload.len() as int) =~= payload);
}

} // verus!
