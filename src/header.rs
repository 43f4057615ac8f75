//! The six-byte frame header: stream id, then frame type and flags in one word.
use vstd::prelude::*;
use crate::wire::{u16_at, u16_bytes, u32_at, u32_bytes, lemma_u16_bytes, lemma_u32_bytes, put_u16, put_u32, read_u16, read_u32, skip};

verus! {

pub const FLAG_NEXT: u16 = 0x20;
pub const FLAG_COMPLETE: u16 = 0x40;
pub const FLAG_FOLLOW: u16 = 0x80;
pub const FLAG_METADATA: u16 = 0x100;
pub const FLAG_IGNORE: u16 = 0x200;
pub const FLAG_LEASE: u16 = FLAG_COMPLETE;
pub const FLAG_RESUME: u16 = FLAG_FOLLOW;
pub const FLAG_RESPOND: u16 = FLAG_FOLLOW;

/// The low ten bits of the type-and-flags word.
pub const FLAG_MASK: u16 = 0x3FF;

pub const TYPE_SETUP: u16 = 0x01;
pub const TYPE_LEASE: u16 = 0x02;
pub const TYPE_KEEPALIVE: u16 = 0x03;
pub const TYPE_REQUEST_RESPONSE: u16 = 0x04;
pub const TYPE_REQUEST_FNF: u16 = 0x05;
pub const TYPE_REQUEST_STREAM: u16 = 0x06;
pub const TYPE_REQUEST_CHANNEL: u16 = 0x07;
pub const TYPE_REQUEST_N: u16 = 0x08;
pub const TYPE_CANCEL: u16 = 0x09;
pub const TYPE_PAYLOAD: u16 = 0x0A;
pub const TYPE_ERROR: u16 = 0x0B;
pub const TYPE_METADATA_PUSH: u16 = 0x0C;
pub const TYPE_RESUME: u16 = 0x0D;
pub const TYPE_RESUME_OK: u16 = 0x0E;

pub const ERR_INVALID_SETUP: u32 = 0x00000001;
pub const ERR_UNSUPPORTED_SETUP: u32 = 0x00000002;
pub const ERR_REJECT_SETUP: u32 = 0x00000003;
pub const ERR_REJECT_RESUME: u32 = 0x00000004;
pub const ERR_CONN_FAILED: u32 = 0x00000101;
pub const ERR_CONN_CLOSED: u32 = 0x00000102;
pub const ERR_APPLICATION: u32 = 0x00000201;
pub const ERR_REJECTED: u32 = 0x00000202;
pub const ERR_CANCELED: u32 = 0x00000203;
pub const ERR_INVALID: u32 = 0x00000204;

pub const REQUEST_MAX: u32 = 2147483647;

/// Number of bytes in a frame header.
pub const LEN_HEADER: usize = 6;

/// Whether every bit of `bit` is set in `flag`.
pub open spec fn has_flag(flag: u16, bit: u16) -> bool {
    flag & bit == bit
}

/// The type-and-flags word: the type code in the top six bits, the flags in the low ten.
pub open spec fn type_word(type_code: u16, flag: u16) -> u16 {
    (type_code * 1024 + flag % 1024) as u16
}

/// The header bytes of a frame.
pub open spec fn header_bytes(stream_id: u32, type_code: u16, flag: u16) -> Seq<u8> {
    u32_bytes(stream_id) + u16_bytes(type_word(type_code, flag))
}

/// Stream id, type code and flags read from the first six bytes.
pub open spec fn header_fields(s: Seq<u8>) -> (u32, u16, u16) {
    let word = u16_at(s.skip(4));
    (u32_at(s), word / 1024, word % 1024)
}

/// The arithmetic form of the word agrees with its form in bits.
pub proof fn lemma_type_word_bits(type_code: u16, flag: u16)
    requires
        type_code < 64,
    ensures
        type_word(type_code, flag) == ((type_code << 10u16) | (flag & FLAG_MASK)),
        flag % 1024 == flag & FLAG_MASK,
{
    assert(((type_code * 1024 + flag % 1024) as u16) == ((type_code << 10u16) | (flag & 0x3FFu16)))
        by (bit_vector)
        requires
            type_code < 64,
    ;
    assert(flag % 1024 == flag & 0x3FFu16) by (bit_vector);
}

/// Decoding an encoded header gives back the stream id, the type code and the
/// low ten bits of the flags, whatever follows the header.
pub proof fn lemma_header_round_trip(stream_id: u32, type_code: u16, flag: u16, rest: Seq<u8>)
    requires
        type_code < 64,
    ensures
        header_fields(header_bytes(stream_id, type_code, flag) + rest) == (
            stream_id,
            type_code,
            flag & FLAG_MASK,
        ),
        (header_bytes(stream_id, type_code, flag) + rest).skip(6) =~= rest,
        header_bytes(stream_id, type_code, flag).len() == 6,
{
    let word = type_word(type_code, flag);
    let s = header_bytes(stream_id, type_code, flag) + rest;
    assert(s =~= u32_bytes(stream_id) + (u16_bytes(word) + rest));
    lemma_u32_bytes(stream_id, u16_bytes(word) + rest);
    assert(s.skip(4) =~= u16_bytes(word) + rest);
    lemma_u16_bytes(word, rest);
    assert(s.skip(6) =~= rest);
    lemma_type_word_bits(type_code, flag);
}

/// Appends the header of a frame.
pub fn encode_header(buf: &mut Vec<u8>, stream_id: u32, type_code: u16, flag: u16)
    requires
        type_code < 64,
    ensures
        final(buf)@ == old(buf)@ + header_bytes(stream_id, type_code, flag),
{
    put_u32(buf, stream_id);
    put_u16(buf, type_code * 1024 + flag % 1024);
    assert(buf@ =~= old(buf)@ + header_bytes(stream_id, type_code, flag));
}

/// Reads stream id, type code and flags from the first six bytes.
pub fn decode_header(b: &[u8]) -> (r: (u32, u16, u16))
    requires
        b@.len() >= 6,
    ensures
        r == header_fields(b@),
        r.1 < 64,
        r.2 < 1024,
{
    let stream_id = read_u32(b);
    let word = read_u16(skip(b, 4));
    (stream_id, word / 1024, word % 1024)
}

} // verus!
