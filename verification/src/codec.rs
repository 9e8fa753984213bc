//! Serialization of expiry timestamps.
//!
//! An expiry record holds exactly one 64-bit unsigned timestamp (seconds
//! since the Unix epoch), stored as 8 big-endian bytes. Any payload of a
//! different length is malformed and does not decode.

use vstd::prelude::*;

verus! {

/// Exact length, in bytes, of a well-formed expiry payload.
pub const EXPIRY_PAYLOAD_LEN: usize = 8;

/// The 8-byte big-endian serialization of a timestamp.
pub open spec fn be_bytes_of(v: u64) -> Seq<u8> {
    seq![
        ((v >> 56) & 0xff) as u8,
        ((v >> 48) & 0xff) as u8,
        ((v >> 40) & 0xff) as u8,
        ((v >> 32) & 0xff) as u8,
        ((v >> 24) & 0xff) as u8,
        ((v >> 16) & 0xff) as u8,
        ((v >> 8) & 0xff) as u8,
        (v & 0xff) as u8,
    ]
}

/// The timestamp held by an 8-byte big-endian payload.
pub open spec fn be_u64_of(b: Seq<u8>) -> u64
    recommends
        b.len() == EXPIRY_PAYLOAD_LEN,
{
    (((b[0] as u64) << 56) | ((b[1] as u64) << 48) | ((b[2] as u64) << 40) | ((b[3] as u64) << 32)
        | ((b[4] as u64) << 24) | ((b[5] as u64) << 16) | ((b[6] as u64) << 8) | (b[7] as u64))
}

/// What an expiry payload decodes to: the stored timestamp for a payload of
/// exactly 8 bytes, nothing for any other length.
pub open spec fn spec_decode_expiry(b: Seq<u8>) -> Option<u64> {
    if b.len() == EXPIRY_PAYLOAD_LEN {
        Some(be_u64_of(b))
    } else {
        None
    }
}

/// Serializes a timestamp as 8 big-endian bytes.
pub fn encode_expiry(v: u64) -> (r: Vec<u8>)
    ensures
        r@ == be_bytes_of(v),
{
    let mut out: Vec<u8> = Vec::new();
    out.push(((v >> 56) & 0xff) as u8);
    out.push(((v >> 48) & 0xff) as u8);
    out.push(((v >> 40) & 0xff) as u8);
    out.push(((v >> 32) & 0xff) as u8);
    out.push(((v >> 24) & 0xff) as u8);
    out.push(((v >> 16) & 0xff) as u8);
    out.push(((v >> 8) & 0xff) as u8);
    out.push((v & 0xff) as u8);
    proof {
        assert(out@ =~= be_bytes_of(v));
    }
    out
}

/// Reads a timestamp back from an expiry payload; any length other than
/// 8 bytes is malformed and yields `None`.
pub fn decode_expiry(raw: &Vec<u8>) -> (r: Option<u64>)
    ensures
        r == spec_decode_expiry(raw@),
{
    if raw.len() != EXPIRY_PAYLOAD_LEN {
        return None;
    }
    let v: u64 = ((raw[0] as u64) << 56) | ((raw[1] as u64) << 48) | ((raw[2] as u64) << 40) | ((
    raw[3] as u64) << 32) | ((raw[4] as u64) << 24) | ((raw[5] as u64) << 16) | ((raw[6] as u64)
        << 8) | (raw[7] as u64);
    Some(v)
}

/// Decoding undoes encoding: a serialized timestamp always reads back as
/// itself.
pub proof fn lemma_expiry_codec_round_trip(v: u64)
    ensures
        spec_decode_expiry(be_bytes_of(v)) == Some(v),
{
    let b = be_bytes_of(v);
    assert(b.len() == EXPIRY_PAYLOAD_LEN);
    let b0 = ((v >> 56) & 0xff) as u8;
    let b1 = ((v >> 48) & 0xff) as u8;
    let b2 = ((v >> 40) & 0xff) as u8;
    let b3 = ((v >> 32) & 0xff) as u8;
    let b4 = ((v >> 24) & 0xff) as u8;
    let b5 = ((v >> 16) & 0xff) as u8;
    let b6 = ((v >> 8) & 0xff) as u8;
    let b7 = (v & 0xff) as u8;
    assert((((b0 as u64) << 56) | ((b1 as u64) << 48) | ((b2 as u64) << 40) | ((b3 as u64) << 32)
        | ((b4 as u64) << 24) | ((b5 as u64) << 16) | ((b6 as u64) << 8) | (b7 as u64)) == v)
        by (bit_vector)
        requires
            b0 == ((v >> 56) & 0xff) as u8,
            b1 == ((v >> 48) & 0xff) as u8,
            b2 == ((v >> 40) & 0xff) as u8,
            b3 == ((v >> 32) & 0xff) as u8,
            b4 == ((v >> 24) & 0xff) as u8,
            b5 == ((v >> 16) & 0xff) as u8,
            b6 == ((v >> 8) & 0xff) as u8,
            b7 == (v & 0xff) as u8,
    ;
    assert(be_u64_of(b) == v);
}

} // verus!
