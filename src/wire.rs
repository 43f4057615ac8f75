//! Big-endian integers and byte runs on the wire.
use vstd::prelude::*;

verus! {

/// Two bytes, most significant first.
pub open spec fn u16_bytes(v: u16) -> Seq<u8> {
    seq![(v / 256) as u8, (v % 256) as u8]
}

/// Three bytes, most significant first, of a value below 2^24.
pub open spec fn u24_bytes(v: nat) -> Seq<u8> {
    seq![(v / 65536) as u8, ((v / 256) % 256) as u8, (v % 256) as u8]
}

/// Four bytes, most significant first.
pub open spec fn u32_bytes(v: u32) -> Seq<u8> {
    u16_bytes((v / 65536) as u16) + u16_bytes((v % 65536) as u16)
}

/// Eight bytes, most significant first.
pub open spec fn u64_bytes(v: u64) -> Seq<u8> {
    u32_bytes((v / 0x1_0000_0000) as u32) + u32_bytes((v % 0x1_0000_0000) as u32)
}

/// The value of the first two bytes, most significant first.
pub open spec fn u16_at(s: Seq<u8>) -> u16 {
    (s[0] as int * 256 + s[1] as int) as u16
}

/// The value of the first three bytes, most significant first.
pub open spec fn u24_at(s: Seq<u8>) -> nat {
    (s[0] as int * 65536 + s[1] as int * 256 + s[2] as int) as nat
}

/// The value of the first four bytes, most significant first.
pub open spec fn u32_at(s: Seq<u8>) -> u32 {
    (u16_at(s) as int * 65536 + u16_at(s.skip(2)) as int) as u32
}

/// The value of the first eight bytes, most significant first.
pub open spec fn u64_at(s: Seq<u8>) -> u64 {
    (u32_at(s) as int * 0x1_0000_0000 + u32_at(s.skip(4)) as int) as u64
}

/// `None` for an empty run, the run itself otherwise.
pub open spec fn rest_of(s: Seq<u8>) -> Option<Seq<u8>> {
    if s.len() == 0 {
        None
    } else {
        Some(s)
    }
}

/// The bytes of an optional run, nothing for `None`.
pub open spec fn opt_bytes(o: Option<Seq<u8>>) -> Seq<u8> {
    match o {
        Some(s) => s,
        None => Seq::empty(),
    }
}

/// The model of an optional byte buffer.
pub open spec fn opt_view(o: &Option<Vec<u8>>) -> Option<Seq<u8>> {
    match o {
        Some(v) => Some(v@),
        None => None,
    }
}

/// Two bytes read back as the value they were written from.
pub proof fn lemma_u16_bytes(v: u16, rest: Seq<u8>)
    ensures
        u16_at(u16_bytes(v) + rest) == v,
        (u16_bytes(v) + rest).skip(2) =~= rest,
        u16_bytes(v).len() == 2,
{
}

/// Three bytes read back as the value they were written from.
pub proof fn lemma_u24_bytes(v: nat, rest: Seq<u8>)
    requires
        v < 0x100_0000,
    ensures
        u24_at(u24_bytes(v) + rest) == v,
        (u24_bytes(v) + rest).skip(3) =~= rest,
        u24_bytes(v).len() == 3,
{
}

/// Four bytes read back as the value they were written from.
pub proof fn lemma_u32_bytes(v: u32, rest: Seq<u8>)
    ensures
        u32_at(u32_bytes(v) + rest) == v,
        (u32_bytes(v) + rest).skip(4) =~= rest,
        u32_bytes(v).len() == 4,
{
    let hi = (v / 65536) as u16;
    let lo = (v % 65536) as u16;
    let s = u32_bytes(v) + rest;
    assert(s =~= u16_bytes(hi) + (u16_bytes(lo) + rest));
    lemma_u16_bytes(hi, u16_bytes(lo) + rest);
    lemma_u16_bytes(lo, rest);
}

/// Eight bytes read back as the value they were written from.
pub proof fn lemma_u64_bytes(v: u64, rest: Seq<u8>)
    ensures
        u64_at(u64_bytes(v) + rest) == v,
        (u64_bytes(v) + rest).skip(8) =~= rest,
        u64_bytes(v).len() == 8,
{
    let hi = (v / 0x1_0000_0000) as u32;
    let lo = (v % 0x1_0000_0000) as u32;
    let s = u64_bytes(v) + rest;
    assert(s =~= u32_bytes(hi) + (u32_bytes(lo) + rest));
    lemma_u32_bytes(hi, u32_bytes(lo) + rest);
    lemma_u32_bytes(lo, rest);
}

/// Optional data that is not present and empty reads back as itself.
pub proof fn lemma_rest_of_opt(o: Option<Seq<u8>>)
    requires
        o != Some(Seq::<u8>::empty()),
    ensures
        rest_of(opt_bytes(o)) == o,
{
    if let Some(x) = o {
        if x.len() == 0 {
            assert(x =~= Seq::<u8>::empty());
        }
    }
}

/// `s` with its first `n` bytes dropped.
pub fn skip(s: &[u8], n: usize) -> (r: &[u8])
    requires
        n <= s@.len(),
    ensures
        r@ == s@.skip(n as int),
{
    vstd::slice::slice_subrange(s, n, s.len())
}

/// A copy of the bytes from `start` to `end`.
pub fn copy_range(s: &[u8], start: usize, end: usize) -> (r: Vec<u8>)
    requires
        start <= end <= s@.len(),
    ensures
        r@ == s@.subrange(start as int, end as int),
{
    vstd::slice::slice_to_vec(vstd::slice::slice_subrange(s, start, end))
}

/// A copy of the whole run, or `None` when it is empty.
pub fn read_rest(s: &[u8]) -> (r: Option<Vec<u8>>)
    ensures
        opt_view(&r) == rest_of(s@),
{
    if s.len() == 0 {
        None
    } else {
        let v = copy_range(s, 0, s.len());
        assert(v@ =~= s@);
        Some(v)
    }
}

/// The first two bytes, most significant first.
pub fn read_u16(s: &[u8]) -> (r: u16)
    requires
        s@.len() >= 2,
    ensures
        r == u16_at(s@),
{
    (s[0] as u16) * 256 + s[1] as u16
}

/// The first three bytes, most significant first.
pub fn read_u24(s: &[u8]) -> (r: usize)
    requires
        s@.len() >= 3,
    ensures
        r == u24_at(s@),
{
    (s[0] as usize) * 65536 + (s[1] as usize) * 256 + s[2] as usize
}

/// The first four bytes, most significant first.
pub fn read_u32(s: &[u8]) -> (r: u32)
    requires
        s@.len() >= 4,
    ensures
        r == u32_at(s@),
{
    let hi = read_u16(s);
    let t = skip(s, 2);
    let lo = read_u16(t);
    (hi as u32) * 65536 + lo as u32
}

/// The first eight bytes, most significant first.
pub fn read_u64(s: &[u8]) -> (r: u64)
    requires
        s@.len() >= 8,
    ensures
        r == u64_at(s@),
{
    let hi = read_u32(s);
    let t = skip(s, 4);
    let lo = read_u32(t);
    (hi as u64) * 0x1_0000_0000 + lo as u64
}

pub fn put_u8(buf: &mut Vec<u8>, v: u8)
    ensures
        final(buf)@ == old(buf)@ + seq![v],
{
    buf.push(v);
    assert(final(buf)@ =~= old(buf)@ + seq![v]);
}

pub fn put_u16(buf: &mut Vec<u8>, v: u16)
    ensures
        final(buf)@ == old(buf)@ + u16_bytes(v),
{
    buf.push((v / 256) as u8);
    buf.push((v % 256) as u8);
    assert(buf@ =~= old(buf)@ + u16_bytes(v));
}

pub fn put_u24(buf: &mut Vec<u8>, v: usize)
    requires
        v < 0x100_0000,
    ensures
        final(buf)@ == old(buf)@ + u24_bytes(v as nat),
{
    buf.push((v / 65536) as u8);
    buf.push(((v / 256) % 256) as u8);
    buf.push((v % 256) as u8);
    assert(buf@ =~= old(buf)@ + u24_bytes(v as nat));
}

pub fn put_u32(buf: &mut Vec<u8>, v: u32)
    ensures
        final(buf)@ == old(buf)@ + u32_bytes(v),
{
    put_u16(buf, (v / 65536) as u16);
    put_u16(buf, (v % 65536) as u16);
    assert(buf@ =~= old(buf)@ + u32_bytes(v));
}

pub fn put_u64(buf: &mut Vec<u8>, v: u64)
    ensures
        final(buf)@ == old(buf)@ + u64_bytes(v),
{
    put_u32(buf, (v / 0x1_0000_0000) as u32);
    put_u32(buf, (v % 0x1_0000_0000) as u32);
    assert(buf@ =~= old(buf)@ + u64_bytes(v));
}

/// Appends every byte of `bytes`.
pub fn put_bytes(buf: &mut Vec<u8>, bytes: &[u8])
    ensures
        final(buf)@ == old(buf)@ + bytes@,
{
    let ghost start = buf@;
    let mut i: usize = 0;
    while i < bytes.len()
        invariant
            i <= bytes@.len(),
            buf@ == start + bytes@.subrange(0, i as int),
        decreases bytes@.len() - i,
    {
        buf.push(bytes[i]);
        i = i + 1;
        assert(buf@ =~= start + bytes@.subrange(0, i as int));
    }
    assert(bytes@.subrange(0, i as int) =~= bytes@);
}

/// Appends the bytes of an optional buffer, nothing for `None`.
pub fn put_opt(buf: &mut Vec<u8>, o: &Option<Vec<u8>>)
    ensures
        final(buf)@ == old(buf)@ + opt_bytes(opt_view(o)),
{
    match o {
        Some(v) => put_bytes(buf, v.as_slice()),
        None => {
            assert(buf@ =~= old(buf)@ + opt_bytes(opt_view(o)));
        },
    }
}

/// The length of an optional buffer, 0 for `None`.
pub fn opt_len(o: &Option<Vec<u8>>) -> (r: usize)
    ensures
        r == opt_bytes(opt_view(o)).len(),
{
    match o {
        Some(v) => v.len(),
        None => 0,
    }
}

} // verus!
