//! Frames on the wire: a token, the payload's length and the payload.
//!
//! ```text
//! [ token: 8 bytes, little-endian ][ length: 4 bytes, little-endian ][ payload ]
//! ```

use vstd::prelude::*;
use crate::err::{Driver, ErrorKind, Fault, ReqlError};

verus! {

/// The bytes a frame spends on its token and its length.
pub const HEADER_LEN: usize = 12;

/// `256` to the power `n`.
pub open spec fn pow256(n: nat) -> nat
    decreases n,
{
    if n == 0 {
        1
    } else {
        256 * pow256((n - 1) as nat)
    }
}

/// The `width` lowest bytes of `x`, lowest first.
pub open spec fn le_bytes(x: nat, width: nat) -> Seq<u8>
    decreases width,
{
    if width == 0 {
        Seq::empty()
    } else {
        seq![(x % 256) as u8] + le_bytes(x / 256, (width - 1) as nat)
    }
}

/// The number that `bytes` spell, lowest byte first.
pub open spec fn le_value(bytes: Seq<u8>) -> nat
    decreases bytes.len(),
{
    if bytes.len() == 0 {
        0
    } else {
        bytes[0] as nat + 256 * le_value(bytes.drop_first())
    }
}

/// A frame as it stands on the wire.
pub open spec fn frame_bytes(token: u64, payload: Seq<u8>) -> Seq<u8> {
    le_bytes(token as nat, 8) + le_bytes(payload.len(), 4) + payload
}

/// The payload length that the header at the front of `buf` announces.
pub open spec fn announced_len(buf: Seq<u8>) -> nat
    recommends
        buf.len() >= HEADER_LEN,
{
    le_value(buf.subrange(8, 12))
}

/// The fault of a payload whose length does not fit a frame's header.
pub open spec fn too_large() -> Fault {
    Fault::new(ErrorKind::Other, "payload too large for a frame"@)
}

/// The fault of a stream that ended inside a frame.
pub open spec fn short_read() -> Fault {
    Fault::new(ErrorKind::Io, "stream closed inside a frame"@)
}

/// The first whole frame at the front of `buf`, as token and payload, if
/// `buf` holds one.
pub open spec fn first_frame(buf: Seq<u8>) -> Option<(u64, Seq<u8>)> {
    if buf.len() >= HEADER_LEN && buf.len() >= HEADER_LEN + announced_len(buf) {
        Some(
            (
                le_value(buf.subrange(0, 8)) as u64,
                buf.subrange(HEADER_LEN as int, HEADER_LEN + announced_len(buf)),
            ),
        )
    } else {
        None
    }
}

pub proof fn lemma_le_bytes_len(x: nat, width: nat)
    ensures
        le_bytes(x, width).len() == width,
    decreases width,
{
    if width > 0 {
        lemma_le_bytes_len(x / 256, (width - 1) as nat);
    }
}

pub proof fn lemma_le_value_bound(bytes: Seq<u8>)
    ensures
        le_value(bytes) < pow256(bytes.len()),
    decreases bytes.len(),
{
    if bytes.len() > 0 {
        lemma_le_value_bound(bytes.drop_first());
    }
}

/// Reading back what was written gives the number that was written.
pub proof fn lemma_le_value_of_bytes(x: nat, width: nat)
    requires
        x < pow256(width),
    ensures
        le_value(le_bytes(x, width)) == x,
    decreases width,
{
    if width > 0 {
        let rest = le_bytes(x / 256, (width - 1) as nat);
        lemma_le_value_of_bytes(x / 256, (width - 1) as nat);
        assert(le_bytes(x, width).drop_first() =~= rest);
    }
}

/// Writing what was read gives the bytes that were read.
pub proof fn lemma_le_bytes_of_value(bytes: Seq<u8>)
    ensures
        le_bytes(le_value(bytes), bytes.len()) == bytes,
    decreases bytes.len(),
{
    if bytes.len() > 0 {
        let rest = bytes.drop_first();
        lemma_le_bytes_of_value(rest);
        assert((bytes[0] as nat + 256 * le_value(rest)) / 256 == le_value(rest));
        assert((bytes[0] as nat + 256 * le_value(rest)) % 256 == bytes[0] as nat);
        assert(le_bytes(le_value(bytes), bytes.len()) =~= bytes);
    }
}

proof fn lemma_pow256_values()
    ensures
        pow256(0) == 1,
        pow256(1) == 0x100,
        pow256(2) == 0x1_0000,
        pow256(3) == 0x100_0000,
        pow256(4) == 0x1_0000_0000,
        pow256(5) == 0x100_0000_0000,
        pow256(6) == 0x1_0000_0000_0000,
        pow256(7) == 0x100_0000_0000_0000,
        pow256(8) == 0x1_0000_0000_0000_0000,
{
    reveal_with_fuel(pow256, 9);
}

/// A frame on the wire is its token, then its payload's length, then its
/// payload, and nothing else; whatever follows it, the frame is read back
/// from the front as it was written.
pub proof fn lemma_frame_layout(token: u64, payload: Seq<u8>, rest: Seq<u8>)
    requires
        payload.len() <= u32::MAX,
    ensures
        frame_bytes(token, payload).len() == HEADER_LEN + payload.len(),
        le_value(frame_bytes(token, payload).subrange(0, 8)) == token,
        le_value(frame_bytes(token, payload).subrange(8, 12)) == payload.len(),
        frame_bytes(token, payload).subrange(12, 12 + payload.len() as int) == payload,
        first_frame(frame_bytes(token, payload) + rest) == Some((token, payload)),
{
    let frame = frame_bytes(token, payload);
    lemma_le_bytes_len(token as nat, 8);
    lemma_le_bytes_len(payload.len(), 4);
    lemma_pow256_values();
    lemma_le_value_of_bytes(token as nat, 8);
    lemma_le_value_of_bytes(payload.len(), 4);
    assert(frame.subrange(0, 8) =~= le_bytes(token as nat, 8));
    assert(frame.subrange(8, 12) =~= le_bytes(payload.len(), 4));
    assert(frame.subrange(12, 12 + payload.len() as int) =~= payload);
    let buf = frame + rest;
    assert(buf.subrange(0, 8) =~= le_bytes(token as nat, 8));
    assert(buf.subrange(8, 12) =~= le_bytes(payload.len(), 4));
    assert(buf.subrange(12, 12 + payload.len() as int) =~= payload);
}

/// Appends the `width` lowest bytes of `x` to `buf`, lowest first.
pub(crate) fn push_le(buf: &mut Vec<u8>, x: u64, width: usize)
    requires
        width <= 8,
    ensures
        final(buf)@ == old(buf)@ + le_bytes(x as nat, width as nat),
{
    let mut rest: u64 = x;
    let mut left: usize = width;
    while left > 0
        invariant
            left <= width,
            buf@ + le_bytes(rest as nat, left as nat) == old(buf)@ + le_bytes(
                x as nat,
                width as nat,
            ),
        decreases left,
    {
        let ghost before = buf@;
        buf.push((rest % 256) as u8);
        proof {
            assert(before + le_bytes(rest as nat, left as nat) =~= buf@ + le_bytes(
                (rest / 256) as nat,
                (left - 1) as nat,
            ));
        }
        rest = rest / 256;
        left = left - 1;
    }
    proof {
        assert(buf@ + le_bytes(rest as nat, 0) =~= buf@);
    }
}

/// Reads the number that the `width` bytes of `bytes` from `start` on spell,
/// lowest byte first.
fn read_le(bytes: &[u8], start: usize, width: usize) -> (x: u64)
    requires
        width <= 8,
        start + width <= bytes@.len(),
    ensures
        x == le_value(bytes@.subrange(start as int, start + width)),
{
    let mut acc: u64 = 0;
    let mut taken: usize = 0;
    let total = bytes.len();
    proof {
        lemma_pow256_values();
    }
    while taken < width
        invariant
            taken <= width <= 8,
            start + width <= total == bytes@.len(),
            acc == le_value(bytes@.subrange(start + width - taken, start + width)),
            acc < pow256(taken as nat),
        decreases width - taken,
    {
        let at: usize = start + width - taken - 1;
        let byte: u8 = bytes[at];
        proof {
            let longer = bytes@.subrange(at as int, start + width);
            assert(longer.drop_first() =~= bytes@.subrange(at + 1, start + width));
            lemma_le_value_bound(longer);
            lemma_pow256_values();
            assert(pow256((taken + 1) as nat) == 256 * pow256(taken as nat));
            assert(pow256((taken + 1) as nat) <= pow256(8)) by {
                reveal_with_fuel(pow256, 9);
            }
        }
        acc = acc * 256 + byte as u64;
        taken = taken + 1;
    }
    acc
}

/// One frame: the token of the query it belongs to, and its payload.
#[derive(Debug, Clone, PartialEq, Eq)]
pub struct Frame {
    pub token: u64,
    pub payload: Vec<u8>,
}

/// Lays out a frame for the wire.
///
/// A payload whose length does not fit the header's four bytes is refused.
pub fn encode_frame(token: u64, payload: &[u8]) -> (r: Result<Vec<u8>, ReqlError>)
    ensures
        payload@.len() <= u32::MAX ==> (r matches Ok(bytes) && bytes@ == frame_bytes(
            token,
            payload@,
        )),
        payload@.len() > u32::MAX ==> (r matches Err(e) && e@ == too_large()),
{
    let len = payload.len();
    if len > u32::MAX as usize {
        return Err(ReqlError::Driver(Driver::Other("payload too large for a frame".to_owned())));
    }
    let mut bytes: Vec<u8> = Vec::new();
    push_le(&mut bytes, token, 8);
    push_le(&mut bytes, len as u64, 4);
    let ghost header = bytes@;
    let mut i: usize = 0;
    while i < len
        invariant
            i <= len == payload@.len(),
            bytes@ == header + payload@.subrange(0, i as int),
        decreases len - i,
    {
        bytes.push(payload[i]);
        proof {
            assert(payload@.subrange(0, i + 1) =~= payload@.subrange(0, i as int).push(
                payload@[i as int],
            ));
            assert(bytes@ =~= header + payload@.subrange(0, i + 1));
        }
        i = i + 1;
    }
    proof {
        assert(payload@.subrange(0, len as int) =~= payload@);
        assert(Seq::<u8>::empty() + le_bytes(token as nat, 8) =~= le_bytes(token as nat, 8));
    }
    Ok(bytes)
}

/// Reads a frame's header: the token and the length of the payload that
/// follows.
pub fn decode_header(header: &[u8; 12]) -> (r: (u64, u32))
    ensures
        r.0 == le_value(header@.subrange(0, 8)),
        r.1 == announced_len(header@),
{
    let token = read_le(header.as_slice(), 0, 8);
    let len = read_le(header.as_slice(), 8, 4);
    proof {
        lemma_le_value_bound(header@.subrange(8, 12));
        lemma_pow256_values();
    }
    (token, len as u32)
}

/// Takes frames out of the bytes that arrive, however the transport cut
/// them up.
#[derive(Debug)]
pub struct Decoder {
    buf: Vec<u8>,
}

impl View for Decoder {
    type V = Seq<u8>;

    /// The bytes that arrived and belong to no frame handed out yet.
    closed spec fn view(&self) -> Seq<u8> {
        self.buf@
    }
}

impl Decoder {
    /// A decoder that has seen no bytes.
    pub fn new() -> (d: Decoder)
        ensures
            d@ == Seq::<u8>::empty(),
    {
        Decoder { buf: Vec::new() }
    }

    /// Takes in bytes that arrived.
    pub fn feed(&mut self, bytes: &[u8])
        ensures
            final(self)@ == old(self)@ + bytes@,
    {
        let mut i: usize = 0;
        while i < bytes.len()
            invariant
                i <= bytes@.len(),
                self.buf@ == old(self).buf@ + bytes@.subrange(0, i as int),
            decreases bytes@.len() - i,
        {
            self.buf.push(bytes[i]);
            proof {
                assert(bytes@.subrange(0, i + 1) =~= bytes@.subrange(0, i as int).push(
                    bytes@[i as int],
                ));
                assert(self.buf@ =~= old(self).buf@ + bytes@.subrange(0, i + 1));
            }
            i = i + 1;
        }
        proof {
            assert(bytes@.subrange(0, bytes@.len() as int) =~= bytes@);
        }
    }

    /// How many more bytes must arrive before the next frame is whole;
    /// zero when one is ready.
    pub fn missing(&self) -> (n: usize)
        ensures
            n == 0 <==> first_frame(self@) is Some,
            self@.len() < HEADER_LEN ==> n == HEADER_LEN - self@.len(),
            self@.len() >= HEADER_LEN && first_frame(self@) is None ==> n == HEADER_LEN
                + announced_len(self@) - self@.len(),
    {
        let have = self.buf.len();
        if have < HEADER_LEN {
            return HEADER_LEN - have;
        }
        let len = read_le(self.buf.as_slice(), 8, 4);
        proof {
            lemma_le_value_bound(self.buf@.subrange(8, 12));
            lemma_pow256_values();
        }
        let body = have - HEADER_LEN;
        if (body as u64) < len {
            (len - body as u64) as usize
        } else {
            0
        }
    }

    /// Hands out the next whole frame, if the bytes seen so far hold one, and
    /// keeps what follows it.
    pub fn next_frame(&mut self) -> (r: Option<Frame>)
        ensures
            match first_frame(old(self)@) {
                Some((token, payload)) => (r matches Some(f) && f.token == token && f.payload@
                    == payload) && final(self)@ == old(self)@.skip(HEADER_LEN + payload.len()),
                None => r is None && final(self)@ == old(self)@,
            },
    {
        let have = self.buf.len();
        if have < HEADER_LEN {
            return None;
        }
        let token = read_le(self.buf.as_slice(), 0, 8);
        let len = read_le(self.buf.as_slice(), 8, 4);
        proof {
            lemma_le_value_bound(self.buf@.subrange(8, 12));
            lemma_pow256_values();
        }
        if ((have - HEADER_LEN) as u64) < len {
            return None;
        }
        let end: usize = HEADER_LEN + len as usize;
        let rest = self.buf.split_off(end);
        let payload = self.buf.split_off(HEADER_LEN);
        self.buf = rest;
        proof {
            assert(rest@ =~= old(self)@.skip(end as int));
            assert(payload@ =~= old(self)@.subrange(HEADER_LEN as int, end as int));
        }
        Some(Frame { token, payload })
    }

    /// The error to raise when the peer closes the stream: between frames the
    /// connection is broken, inside one the read fell short.
    pub fn end_of_stream(&self) -> (e: ReqlError)
        ensures
            self@.len() == 0 ==> e@ == Fault::bare(ErrorKind::ConnectionBroken),
            self@.len() > 0 ==> e@ == short_read(),
    {
        if self.buf.len() == 0 {
            ReqlError::Driver(Driver::ConnectionBroken)
        } else {
            ReqlError::Driver(Driver::Io("stream closed inside a frame".to_owned()))
        }
    }
}

} // verus!
