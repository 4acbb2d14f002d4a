//! The framed protocol spoken with a persistent worker.
//!
//! A request frame is the timeout in milliseconds, the context length and the
//! code length, each a four-byte little-endian unsigned integer, followed by
//! the context bytes and the code bytes. A response frame is a four-byte
//! little-endian length followed by that many bytes of output.

use vstd::prelude::*;
use crate::text::{decode_lossy, lossy_text};

verus! {

/// The largest value a four-byte field can hold.
pub const FIELD_MAX: u64 = 0xffff_ffff;

/// The four little-endian bytes of `v`.
pub open spec fn le32(v: u32) -> Seq<u8> {
    seq![
        (v % 256) as u8,
        (v / 256 % 256) as u8,
        (v / 256 / 256 % 256) as u8,
        (v / 256 / 256 / 256) as u8,
    ]
}

/// The value of four little-endian bytes.
pub open spec fn le32_value(b: Seq<u8>) -> int
    recommends
        b.len() == 4,
{
    b[0] + 256 * (b[1] + 256 * (b[2] + 256 * b[3]))
}

/// Reading back the bytes of a value gives the value.
pub proof fn lemma_le32_value(v: u32)
    ensures
        le32(v).len() == 4,
        le32_value(le32(v)) == v as int,
{
    let q1 = v as int / 256;
    let q2 = q1 / 256;
    let q3 = q2 / 256;
    assert(v as int == 256 * q1 + v as int % 256);
    assert(q1 == 256 * q2 + q1 % 256);
    assert(q2 == 256 * q3 + q2 % 256);
}

/// The context bytes that a request carries: none when absent.
pub open spec fn context_bytes(context: Option<&[u8]>) -> Seq<u8> {
    match context {
        Some(c) => c@,
        None => Seq::empty(),
    }
}

/// The timeout field of a request: the resolved timeout in seconds, as
/// milliseconds, or zero when none is resolved.
pub open spec fn timeout_millis(timeout: Option<usize>) -> int {
    match timeout {
        Some(t) => t * 1000,
        None => 0,
    }
}

/// The request frame for a timeout in milliseconds, a context and code.
pub open spec fn request_frame(timeout_ms: u32, context: Seq<u8>, code: Seq<u8>) -> Seq<u8> {
    le32(timeout_ms) + le32(context.len() as u32) + le32(code.len() as u32) + context + code
}

/// Whether a request fits its frame: every four-byte field holds its value.
pub open spec fn request_fits(timeout: Option<usize>, context_len: nat, code_len: nat) -> bool {
    &&& timeout_millis(timeout) <= FIELD_MAX
    &&& context_len <= FIELD_MAX
    &&& code_len <= FIELD_MAX
}

/// What a request frame holds: its timeout in milliseconds, its context and
/// its code, or nothing when the bytes are no request frame.
pub open spec fn parse_request(b: Seq<u8>) -> Option<(u32, Seq<u8>, Seq<u8>)> {
    if b.len() < 12 {
        None
    } else {
        let t = le32_value(b.subrange(0, 4));
        let cl = le32_value(b.subrange(4, 8));
        let kl = le32_value(b.subrange(8, 12));
        if b.len() != 12 + cl + kl {
            None
        } else {
            Some((t as u32, b.subrange(12, 12 + cl), b.subrange(12 + cl, b.len() as int)))
        }
    }
}

/// The response frame that carries `payload`.
pub open spec fn response_frame(payload: Seq<u8>) -> Seq<u8> {
    le32(payload.len() as u32) + payload
}

/// Appends the four little-endian bytes of `v`.
fn put_u32_le(buf: &mut Vec<u8>, v: u32)
    ensures
        final(buf)@ == old(buf)@ + le32(v),
{
    buf.push((v % 256) as u8);
    buf.push((v / 256 % 256) as u8);
    buf.push((v / 256 / 256 % 256) as u8);
    buf.push((v / 256 / 256 / 256) as u8);
    assert(final(buf)@ =~= old(buf)@ + le32(v));
}

/// Appends all of `bytes`.
fn put_bytes(buf: &mut Vec<u8>, bytes: &[u8])
    ensures
        final(buf)@ == old(buf)@ + bytes@,
{
    let ghost start = buf@;
    let mut i: usize = 0;
    while i < bytes.len()
        invariant
            i <= bytes@.len(),
            buf@ == start + bytes@.subrange(0, i as int),
        decreases bytes@.len() - i,
    {
        buf.push(bytes[i]);
        i = i + 1;
        assert(buf@ =~= start + bytes@.subrange(0, i as int));
    }
    assert(bytes@.subrange(0, i as int) =~= bytes@);
}

/// The value of four little-endian bytes.
pub fn u32_from_le(b: [u8; 4]) -> (r: u32)
    ensures
        r as int == le32_value(b@),
{
    b[0] as u32 + 256 * (b[1] as u32 + 256 * (b[2] as u32 + 256 * b[3] as u32))
}

/// Encodes a request frame. The timeout is in seconds and is sent in
/// milliseconds, zero standing for none; absent context is sent as zero bytes.
/// Returns `None` when a field does not fit in four bytes.
pub fn make_persistent_input(timeout: Option<usize>, context: Option<&[u8]>, code: &[u8]) -> (r:
    Option<Vec<u8>>)
    ensures
        r.is_some() <==> request_fits(timeout, context_bytes(context).len(), code@.len()),
        r matches Some(frame) ==> frame@ == request_frame(
            timeout_millis(timeout) as u32,
            context_bytes(context),
            code@,
        ),
{
    let t: usize = match timeout {
        Some(t) => t,
        None => 0,
    };
    if t as u64 > FIELD_MAX / 1000 {
        return None;
    }
    let ctx: &[u8] = match context {
        Some(c) => c,
        None => &[],
    };
    if ctx.len() as u64 > FIELD_MAX || code.len() as u64 > FIELD_MAX {
        return None;
    }
    let ms: u32 = (t as u32) * 1000;
    let mut buf: Vec<u8> = Vec::new();
    put_u32_le(&mut buf, ms);
    put_u32_le(&mut buf, ctx.len() as u32);
    put_u32_le(&mut buf, code.len() as u32);
    put_bytes(&mut buf, ctx);
    put_bytes(&mut buf, code);
    Some(buf)
}

/// Decodes a request frame into its timeout in milliseconds, its context and
/// its code; `None` when the bytes are no request frame.
pub fn decode_request(frame: &[u8]) -> (r: Option<(u32, Vec<u8>, Vec<u8>)>)
    ensures
        r matches Some((t, c, k)) ==> parse_request(frame@) == Some((t, c@, k@)),
        r is None ==> parse_request(frame@) is None,
{
    if frame.len() < 12 {
        return None;
    }
    let t = u32_from_le([frame[0], frame[1], frame[2], frame[3]]);
    let cl = u32_from_le([frame[4], frame[5], frame[6], frame[7]]);
    let kl = u32_from_le([frame[8], frame[9], frame[10], frame[11]]);
    proof {
        assert(frame@.subrange(0, 4) =~= seq![frame@[0], frame@[1], frame@[2], frame@[3]]);
        assert(frame@.subrange(4, 8) =~= seq![frame@[4], frame@[5], frame@[6], frame@[7]]);
        assert(frame@.subrange(8, 12) =~= seq![frame@[8], frame@[9], frame@[10], frame@[11]]);
    }
    if frame.len() as u64 != 12 + cl as u64 + kl as u64 {
        return None;
    }
    let mut context: Vec<u8> = Vec::new();
    put_bytes(&mut context, &frame[12..12 + cl as usize]);
    let mut code: Vec<u8> = Vec::new();
    put_bytes(&mut code, &frame[12 + cl as usize..frame.len()]);
    Some((t, context, code))
}

/// Encodes a response frame around `payload`; `None` when its length does not
/// fit in four bytes.
pub fn encode_response(payload: &[u8]) -> (r: Option<Vec<u8>>)
    ensures
        r is Some <==> payload@.len() <= FIELD_MAX,
        r matches Some(frame) ==> frame@ == response_frame(payload@),
{
    if payload.len() as u64 > FIELD_MAX {
        return None;
    }
    let mut buf: Vec<u8> = Vec::new();
    put_u32_le(&mut buf, payload.len() as u32);
    put_bytes(&mut buf, payload);
    Some(buf)
}

/// The length that a response-length header announces.
pub fn response_length(header: [u8; 4]) -> (r: usize)
    ensures
        r as int == le32_value(header@),
{
    u32_from_le(header) as usize
}

/// The text of a response payload, decoded as UTF-8 with lossy replacement.
pub fn decode_response(payload: &[u8]) -> (r: String)
    ensures
        r@ == lossy_text(payload@),
{
    decode_lossy(payload)
}

/// A request frame decodes to the timeout, context and code that were encoded.
pub proof fn lemma_request_round_trip(timeout_ms: u32, context: Seq<u8>, code: Seq<u8>)
    requires
        context.len() <= FIELD_MAX,
        code.len() <= FIELD_MAX,
    ensures
        parse_request(request_frame(timeout_ms, context, code)) == Some((timeout_ms, context, code)),
{
    let f = request_frame(timeout_ms, context, code);
    lemma_le32_value(timeout_ms);
    lemma_le32_value(context.len() as u32);
    lemma_le32_value(code.len() as u32);
    assert(f.subrange(0, 4) =~= le32(timeout_ms));
    assert(f.subrange(4, 8) =~= le32(context.len() as u32));
    assert(f.subrange(8, 12) =~= le32(code.len() as u32));
    assert(f.subrange(12, 12 + context.len() as int) =~= context);
    assert(f.subrange(12 + context.len() as int, f.len() as int) =~= code);
}

/// A response frame announces the length of its payload and carries the
/// payload unchanged after the header, so decoding that many bytes gives the
/// lossy text of the payload.
pub proof fn lemma_response_round_trip(payload: Seq<u8>)
    requires
        payload.len() <= FIELD_MAX,
    ensures
        le32_value(response_frame(payload).subrange(0, 4)) == payload.len(),
        response_frame(payload).subrange(4, 4 + payload.len() as int) == payload,
        lossy_text(response_frame(payload).subrange(4, 4 + payload.len() as int)) == lossy_text(payload),
{
    let f = response_frame(payload);
    lemma_le32_value(payload.len() as u32);
    assert(f.subrange(0, 4) =~= le32(payload.len() as u32));
    assert(f.subrange(4, 4 + payload.len() as int) =~= payload);
}

} // verus!
