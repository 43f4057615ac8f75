//! Byte strings that carry their own length prefix.
use vstd::prelude::*;
use crate::wire::{copy_range, lemma_u16_bytes, put_bytes, put_u16, put_u8, read_u16, skip, u16_at, u16_bytes};

verus! {

/// A string after its length in one byte.
pub open spec fn short_bytes(t: Seq<u8>) -> Seq<u8> {
    seq![t.len() as u8] + t
}

/// A string after its length in two bytes.
pub open spec fn long_bytes(t: Seq<u8>) -> Seq<u8> {
    u16_bytes(t.len() as u16) + t
}

/// A string with a one-byte length, and what follows it.
pub open spec fn parse_short(s: Seq<u8>) -> Option<(Seq<u8>, Seq<u8>)> {
    if s.len() < 1 || s.len() < 1 + s[0] {
        None
    } else {
        Some((s.subrange(1, 1 + s[0] as int), s.skip(1 + s[0] as int)))
    }
}

/// A string with a two-byte length, and what follows it.
pub open spec fn parse_long(s: Seq<u8>) -> Option<(Seq<u8>, Seq<u8>)> {
    if s.len() < 2 || s.len() < 2 + u16_at(s) {
        None
    } else {
        Some((s.subrange(2, 2 + u16_at(s) as int), s.skip(2 + u16_at(s) as int)))
    }
}

/// A string with a one-byte length reads back as itself.
pub proof fn lemma_short_round_trip(t: Seq<u8>, rest: Seq<u8>)
    requires
        t.len() < 256,
    ensures
        parse_short(short_bytes(t) + rest) == Some((t, rest)),
{
    let s = short_bytes(t) + rest;
    assert(s.subrange(1, 1 + t.len() as int) =~= t);
    assert(s.skip(1 + t.len() as int) =~= rest);
}

/// A string with a two-byte length reads back as itself.
pub proof fn lemma_long_round_trip(t: Seq<u8>, rest: Seq<u8>)
    requires
        t.len() < 0x1_0000,
    ensures
        parse_long(long_bytes(t) + rest) == Some((t, rest)),
{
    let s = long_bytes(t) + rest;
    assert(s =~= u16_bytes(t.len() as u16) + (t + rest));
    lemma_u16_bytes(t.len() as u16, t + rest);
    assert(s.subrange(2, 2 + t.len() as int) =~= t);
    assert(s.skip(2 + t.len() as int) =~= rest);
}

/// Reads a string with a one-byte length.
pub fn read_short<'a>(b: &'a [u8]) -> (r: Option<(Vec<u8>, &'a [u8])>)
    ensures
        match r {
            Some((t, rest)) => parse_short(b@) == Some((t@, rest@)),
            None => parse_short(b@) is None,
        },
{
    if b.len() < 1 {
        return None;
    }
    let n = b[0] as usize;
    if b.len() - 1 < n {
        return None;
    }
    Some((copy_range(b, 1, 1 + n), skip(b, 1 + n)))
}

/// Reads a string with a two-byte length.
pub fn read_long<'a>(b: &'a [u8]) -> (r: Option<(Vec<u8>, &'a [u8])>)
    ensures
        match r {
            Some((t, rest)) => parse_long(b@) == Some((t@, rest@)),
            None => parse_long(b@) is None,
        },
{
    if b.len() < 2 {
        return None;
    }
    let n = read_u16(b) as usize;
    if b.len() - 2 < n {
        return None;
    }
    Some((copy_range(b, 2, 2 + n), skip(b, 2 + n)))
}

/// Appends a string after its length in one byte.
pub fn put_short(buf: &mut Vec<u8>, t: &Vec<u8>)
    requires
        t@.len() < 256,
    ensures
        final(buf)@ == old(buf)@ + short_bytes(t@),
{
    put_u8(buf, t.len() as u8);
    put_bytes(buf, t.as_slice());
    assert(buf@ =~= old(buf)@ + short_bytes(t@));
}

/// Appends a string after its length in two bytes.
pub fn put_long(buf: &mut Vec<u8>, t: &Vec<u8>)
    requires
        t@.len() < 0x1_0000,
    ensures
        final(buf)@ == old(buf)@ + long_bytes(t@),
{
    put_u16(buf, t.len() as u16);
    put_bytes(buf, t.as_slice());
    assert(buf@ =~= old(buf)@ + long_bytes(t@));
}

} // verus!
