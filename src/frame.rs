//! Frames: a stream id, flags and a body, to and from bytes.
use vstd::prelude::*;
use crate::body::{
    body_bytes, body_encodable, body_fits, is_known_type, lemma_body_round_trip,
    lemma_type_code_known, parse_body, type_code, Body, BodyView,
};
use crate::errors::FrameDecodeError;
use crate::header::{
    decode_header, encode_header, has_flag, header_bytes, header_fields, lemma_header_round_trip, lemma_type_word_bits,
    FLAG_COMPLETE, FLAG_MASK, FLAG_NEXT, LEN_HEADER, TYPE_CANCEL, TYPE_ERROR, TYPE_KEEPALIVE,
    TYPE_LEASE, TYPE_METADATA_PUSH, TYPE_PAYLOAD, TYPE_REQUEST_CHANNEL, TYPE_REQUEST_FNF,
    TYPE_REQUEST_N, TYPE_REQUEST_RESPONSE, TYPE_REQUEST_STREAM, TYPE_RESUME, TYPE_RESUME_OK,
    TYPE_SETUP,
};
use crate::wire::skip;

verus! {

/// A value with a known encoding that it can append to a buffer.
pub trait Writeable {
    /// The bytes that `write_to` appends.
    spec fn wire(&self) -> Seq<u8>;

    /// Whether every length prefix can hold the length it announces.
    spec fn writable(&self) -> bool;

    fn write_to(&self, bf: &mut Vec<u8>)
        requires
            self.writable(),
        ensures
            final(bf)@ == old(bf)@ + self.wire(),
    ;

    fn len(&self) -> (r: usize)
        requires
            self.writable(),
            self.wire().len() <= usize::MAX,
        ensures
            r == self.wire().len(),
    ;
}

#[derive(Debug, PartialEq)]
pub struct Frame {
    stream_id: u32,
    body: Body,
    flag: u16,
}

/// The model of a frame.
pub struct FrameView {
    pub stream_id: u32,
    pub flag: u16,
    pub body: BodyView,
}

impl View for Frame {
    type V = FrameView;

    closed spec fn view(&self) -> FrameView {
        FrameView { stream_id: self.stream_id, flag: self.flag, body: self.body@ }
    }
}

/// The frame on the wire: header, then body.
pub open spec fn frame_bytes(f: FrameView) -> Seq<u8> {
    header_bytes(f.stream_id, type_code(f.body), f.flag) + body_bytes(f.body)
}

/// The frame read from `s`.
pub open spec fn parse_frame(s: Seq<u8>) -> Result<FrameView, FrameDecodeError> {
    if s.len() < 6 {
        Err(FrameDecodeError::Truncated)
    } else {
        let (stream_id, code, flag) = header_fields(s);
        match parse_body(code, flag, s.skip(6)) {
            Ok(body) => Ok(FrameView { stream_id, flag, body }),
            Err(e) => Err(e),
        }
    }
}

/// The frame reads back as itself: its flags fit in ten bits and agree with
/// its body.
pub open spec fn frame_fits(f: FrameView) -> bool {
    f.flag < 1024 && body_fits(f.flag, f.body)
}

/// Decoding the bytes of a frame gives back its stream id and body, and its
/// flags cut to their low ten bits, whenever the body agrees with those ten bits.
pub proof fn lemma_frame_round_trip_masked(f: FrameView)
    requires
        body_fits(f.flag & FLAG_MASK, f.body),
    ensures
        parse_frame(frame_bytes(f)) == Ok::<FrameView, FrameDecodeError>(
            FrameView { flag: f.flag & FLAG_MASK, ..f },
        ),
{
    lemma_type_code_known(f.body);
    lemma_header_round_trip(f.stream_id, type_code(f.body), f.flag, body_bytes(f.body));
    lemma_body_round_trip(f.flag & FLAG_MASK, f.body);
}

/// Decoding the bytes of a frame gives back the same frame.
pub proof fn lemma_frame_round_trip(f: FrameView)
    requires
        frame_fits(f),
    ensures
        parse_frame(frame_bytes(f)) == Ok::<FrameView, FrameDecodeError>(f),
{
    lemma_type_word_bits(type_code(f.body), f.flag);
    lemma_frame_round_trip_masked(f);
}

/// A type code that names no frame kind is refused as such, whatever follows it.
pub proof fn lemma_unknown_type(s: Seq<u8>)
    requires
        s.len() >= 6,
        !is_known_type(header_fields(s).1),
    ensures
        parse_frame(s) == Err::<FrameView, FrameDecodeError>(FrameDecodeError::IllegalFrameType),
{
}

/// A cancel frame is its header alone, and that header reads back as the frame.
pub proof fn lemma_cancel_is_header(stream_id: u32, flag: u16)
    requires
        flag < 1024,
    ensures
        body_bytes(BodyView::Cancel).len() == 0,
        frame_bytes(FrameView { stream_id, flag, body: BodyView::Cancel }) == header_bytes(
            stream_id,
            TYPE_CANCEL,
            flag,
        ),
        parse_frame(header_bytes(stream_id, TYPE_CANCEL, flag)) == Ok::<
            FrameView,
            FrameDecodeError,
        >(FrameView { stream_id, flag, body: BodyView::Cancel }),
{
    let f = FrameView { stream_id, flag, body: BodyView::Cancel };
    assert(frame_bytes(f) =~= header_bytes(stream_id, TYPE_CANCEL, flag));
    lemma_frame_round_trip(f);
}

fn to_frame_type(body: &Body) -> (r: u16)
    ensures
        r == type_code(body@),
{
    match body {
        Body::Setup { .. } => TYPE_SETUP,
        Body::Lease { .. } => TYPE_LEASE,
        Body::Keepalive { .. } => TYPE_KEEPALIVE,
        Body::RequestResponse { .. } => TYPE_REQUEST_RESPONSE,
        Body::RequestFNF(_) => TYPE_REQUEST_FNF,
        Body::RequestStream { .. } => TYPE_REQUEST_STREAM,
        Body::RequestChannel { .. } => TYPE_REQUEST_CHANNEL,
        Body::RequestN { .. } => TYPE_REQUEST_N,
        Body::Cancel() => TYPE_CANCEL,
        Body::Payload { .. } => TYPE_PAYLOAD,
        Body::Error { .. } => TYPE_ERROR,
        Body::MetadataPush { .. } => TYPE_METADATA_PUSH,
        Body::Resume { .. } => TYPE_RESUME,
        Body::ResumeOK { .. } => TYPE_RESUME_OK,
    }
}

impl Frame {
    pub fn new(stream_id: u32, body: Body, flag: u16) -> (r: Frame)
        ensures
            r@ == (FrameView { stream_id, flag, body: body@ }),
    {
        Frame { stream_id, body, flag }
    }

    /// Reads one frame from `b`, which holds that frame and nothing after it.
    pub fn decode(b: &[u8]) -> (r: Result<Frame, FrameDecodeError>)
        ensures
            match r {
                Ok(f) => parse_frame(b@) == Ok::<FrameView, FrameDecodeError>(f@),
                Err(e) => parse_frame(b@) == Err::<FrameView, FrameDecodeError>(e),
            },
    {
        if b.len() < LEN_HEADER {
            return Err(FrameDecodeError::Truncated);
        }
        let (sid, kind, flag) = decode_header(b);
        match Body::decode(kind, flag, skip(b, LEN_HEADER)) {
            Ok(body) => Ok(Frame::new(sid, body, flag)),
            Err(e) => Err(e),
        }
    }

    /// The frame on the wire.
    pub fn encode(&self) -> (r: Vec<u8>)
        requires
            self.writable(),
        ensures
            r@ == frame_bytes(self@),
    {
        let mut buf: Vec<u8> = Vec::new();
        self.write_to(&mut buf);
        assert(buf@ =~= frame_bytes(self@));
        buf
    }

    /// Whether every length prefix of the body can hold the length it announces.
    pub fn is_writable(&self) -> (r: bool)
        ensures
            r == self.writable(),
    {
        self.body.is_writable()
    }

    pub fn get_body(&self) -> (r: &Body)
        ensures
            r@ == self@.body,
    {
        &self.body
    }

    pub fn get_frame_type(&self) -> (r: u16)
        ensures
            r == type_code(self@.body),
    {
        to_frame_type(&self.body)
    }

    pub fn get_flag(&self) -> (r: u16)
        ensures
            r == self@.flag,
    {
        self.flag
    }

    pub fn get_stream_id(&self) -> (r: u32)
        ensures
            r == self@.stream_id,
    {
        self.stream_id
    }

    pub fn has_next(&self) -> (r: bool)
        ensures
            r == has_flag(self@.flag, FLAG_NEXT),
    {
        self.flag & FLAG_NEXT == FLAG_NEXT
    }

    pub fn has_complete(&self) -> (r: bool)
        ensures
            r == has_flag(self@.flag, FLAG_COMPLETE),
    {
        self.flag & FLAG_COMPLETE == FLAG_COMPLETE
    }
}

impl Writeable for Frame {
    open spec fn wire(&self) -> Seq<u8> {
        frame_bytes(self@)
    }

    open spec fn writable(&self) -> bool {
        body_encodable(self@.body)
    }

    fn write_to(&self, bf: &mut Vec<u8>) {
        let code = to_frame_type(&self.body);
        proof {
            lemma_type_code_known(self.body@);
        }
        encode_header(bf, self.stream_id, code, self.flag);
        self.body.write_to(bf);
        assert(bf@ =~= old(bf)@ + frame_bytes(self@));
    }

    fn len(&self) -> (r: usize) {
        proof {
            lemma_type_code_known(self.body@);
            lemma_header_round_trip(self.stream_id, type_code(self.body@), self.flag, Seq::empty());
        }
        LEN_HEADER + self.body.len()
    }
}

} // verus!
