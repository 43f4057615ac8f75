//! The metadata/data pair shared by the payload-carrying frame kinds.
use vstd::prelude::*;
use crate::errors::FrameDecodeError;
use crate::header::{has_flag, FLAG_METADATA};
use crate::wire::{copy_range, lemma_rest_of_opt, lemma_u24_bytes, opt_bytes, opt_len, opt_view, put_bytes, put_opt, put_u24, read_rest, read_u24, rest_of, skip, u24_at, u24_bytes};

verus! {

/// The model of an optional metadata block and an optional data block.
pub struct PayloadView {
    pub metadata: Option<Seq<u8>>,
    pub data: Option<Seq<u8>>,
}

/// Largest metadata length that the three-byte length prefix can carry.
pub const MAX_METADATA_LEN: usize = 0xFF_FFFF;

/// The metadata block on the wire: its three-byte length, then its bytes.
pub open spec fn metadata_bytes(m: Option<Seq<u8>>) -> Seq<u8> {
    match m {
        Some(m) => u24_bytes(m.len()) + m,
        None => Seq::empty(),
    }
}

/// The pair on the wire: the metadata block if present, then the data, unprefixed.
pub open spec fn payload_bytes(p: PayloadView) -> Seq<u8> {
    metadata_bytes(p.metadata) + opt_bytes(p.data)
}

/// The pair can be written: its metadata fits the length prefix.
pub open spec fn payload_encodable(p: PayloadView) -> bool {
    match p.metadata {
        Some(m) => m.len() <= MAX_METADATA_LEN,
        None => true,
    }
}

/// The metadata flag is set exactly when metadata is present.
pub open spec fn metadata_consistent(flag: u16, metadata: Option<Seq<u8>>) -> bool {
    has_flag(flag, FLAG_METADATA) <==> metadata is Some
}

/// The pair reads back as written under `flag`: it can be written, the flag
/// agrees with the metadata, and present data is not empty.
pub open spec fn payload_fits(flag: u16, p: PayloadView) -> bool {
    &&& payload_encodable(p)
    &&& metadata_consistent(flag, p.metadata)
    &&& p.data != Some(Seq::<u8>::empty())
}

/// The pair read from the rest of a frame body, `None` when the declared
/// metadata length runs past the end.
pub open spec fn parse_payload(flag: u16, s: Seq<u8>) -> Option<PayloadView> {
    if has_flag(flag, FLAG_METADATA) {
        if s.len() < 3 {
            None
        } else {
            let n = u24_at(s) as int;
            if s.len() < 3 + n {
                None
            } else {
                Some(
                    PayloadView {
                        metadata: Some(s.subrange(3, 3 + n)),
                        data: rest_of(s.skip(3 + n)),
                    },
                )
            }
        }
    } else {
        Some(PayloadView { metadata: None, data: rest_of(s) })
    }
}

/// A pair that fits its flag reads back as itself.
pub proof fn lemma_payload_round_trip(flag: u16, p: PayloadView)
    requires
        payload_fits(flag, p),
    ensures
        parse_payload(flag, payload_bytes(p)) == Some(p),
{
    let s = payload_bytes(p);
    let d = opt_bytes(p.data);
    lemma_rest_of_opt(p.data);
    match p.metadata {
        Some(m) => {
            lemma_u24_bytes(m.len(), m + d);
            assert(s =~= u24_bytes(m.len()) + (m + d));
            assert(s.subrange(3, 3 + m.len() as int) =~= m);
            assert(s.skip(3 + m.len() as int) =~= d);
        },
        None => {
            assert(s =~= d);
        },
    }
}

/// Metadata announced with length zero is present and empty, which is not
/// the same as absent metadata.
pub proof fn lemma_empty_metadata_is_present(flag: u16, rest: Seq<u8>)
    requires
        has_flag(flag, FLAG_METADATA),
    ensures
        parse_payload(flag, u24_bytes(0) + rest) == Some(
            PayloadView { metadata: Some(Seq::<u8>::empty()), data: rest_of(rest) },
        ),
        parse_payload(flag, u24_bytes(0) + rest) != Some(
            PayloadView { metadata: None, data: rest_of(rest) },
        ),
{
    lemma_u24_bytes(0, rest);
    let s = u24_bytes(0) + rest;
    assert(s.subrange(3, 3) =~= Seq::<u8>::empty());
}

/// When nothing follows the metadata, or nothing at all is there, data is absent.
pub proof fn lemma_no_data_when_nothing_follows(flag: u16, m: Seq<u8>)
    requires
        m.len() <= MAX_METADATA_LEN,
    ensures
        has_flag(flag, FLAG_METADATA) ==> parse_payload(flag, u24_bytes(m.len()) + m) == Some(
            PayloadView { metadata: Some(m), data: None },
        ),
        !has_flag(flag, FLAG_METADATA) ==> parse_payload(flag, Seq::empty()) == Some(
            PayloadView { metadata: None, data: None },
        ),
{
    lemma_u24_bytes(m.len(), m);
    let s = u24_bytes(m.len()) + m;
    assert(s.subrange(3, 3 + m.len() as int) =~= m);
}

/// A metadata length that runs past the end of the body is refused.
pub proof fn lemma_metadata_overrun(flag: u16, s: Seq<u8>)
    requires
        has_flag(flag, FLAG_METADATA),
        s.len() >= 3,
        u24_at(s) > s.len() - 3,
    ensures
        parse_payload(flag, s) is None,
{
}

/// Reads the metadata/data pair from the rest of a frame body.
pub fn read_payload(flag: u16, b: &[u8]) -> (r: Result<(Option<Vec<u8>>, Option<Vec<u8>>), FrameDecodeError>)
    ensures
        match r {
            Ok((m, d)) => parse_payload(flag, b@) == Some(
                PayloadView { metadata: opt_view(&m), data: opt_view(&d) },
            ),
            Err(e) => e == FrameDecodeError::Truncated && parse_payload(flag, b@) is None,
        },
{
    if flag & FLAG_METADATA == FLAG_METADATA {
        if b.len() < 3 {
            return Err(FrameDecodeError::Truncated);
        }
        let n = read_u24(b);
        if b.len() - 3 < n {
            return Err(FrameDecodeError::Truncated);
        }
        let m = copy_range(b, 3, 3 + n);
        let d = read_rest(skip(b, 3 + n));
        Ok((Some(m), d))
    } else {
        Ok((None, read_rest(b)))
    }
}

/// Appends the metadata/data pair.
pub fn write_payload(buf: &mut Vec<u8>, metadata: &Option<Vec<u8>>, data: &Option<Vec<u8>>)
    requires
        payload_encodable(PayloadView { metadata: opt_view(metadata), data: opt_view(data) }),
    ensures
        final(buf)@ == old(buf)@ + payload_bytes(
            PayloadView { metadata: opt_view(metadata), data: opt_view(data) },
        ),
{
    let ghost p = PayloadView { metadata: opt_view(metadata), data: opt_view(data) };
    match metadata {
        Some(m) => {
            put_u24(buf, m.len());
            put_bytes(buf, m.as_slice());
        },
        None => {},
    }
    assert(buf@ =~= old(buf)@ + metadata_bytes(p.metadata));
    put_opt(buf, data);
    assert(buf@ =~= old(buf)@ + payload_bytes(p));
}

/// Whether `write_payload` can carry the metadata's length.
pub fn payload_writable(metadata: &Option<Vec<u8>>, data: &Option<Vec<u8>>) -> (r: bool)
    ensures
        r == payload_encodable(PayloadView { metadata: opt_view(metadata), data: opt_view(data) }),
{
    match metadata {
        Some(m) => m.len() <= MAX_METADATA_LEN,
        None => true,
    }
}

/// The number of bytes that `write_payload` appends.
pub fn payload_len(metadata: &Option<Vec<u8>>, data: &Option<Vec<u8>>) -> (r: usize)
    requires
        payload_bytes(PayloadView { metadata: opt_view(metadata), data: opt_view(data) }).len()
            <= usize::MAX,
    ensures
        r == payload_bytes(PayloadView { metadata: opt_view(metadata), data: opt_view(data) }).len(),
{
    let d = opt_len(data);
    match metadata {
        Some(m) => 3 + m.len() + d,
        None => d,
    }
}

} // verus!
