//! The frame bodies: one variant per frame kind, each with its own layout.
use vstd::prelude::*;
use crate::errors::FrameDecodeError;
use crate::frame::Writeable;
use crate::header::{
    has_flag, FLAG_METADATA, FLAG_RESUME, TYPE_CANCEL, TYPE_ERROR, TYPE_KEEPALIVE, TYPE_LEASE,
    TYPE_METADATA_PUSH, TYPE_PAYLOAD, TYPE_REQUEST_CHANNEL, TYPE_REQUEST_FNF, TYPE_REQUEST_N,
    TYPE_REQUEST_RESPONSE, TYPE_REQUEST_STREAM, TYPE_RESUME, TYPE_RESUME_OK, TYPE_SETUP,
};
use crate::payload::{
    lemma_payload_round_trip, metadata_consistent, parse_payload,
    payload_bytes, payload_encodable, payload_fits, payload_len, payload_writable, read_payload,
    write_payload,
    PayloadView,
};
use crate::prefixed::{
    lemma_long_round_trip, lemma_short_round_trip, long_bytes, parse_long, parse_short, put_long,
    put_short, read_long, read_short, short_bytes,
};
use crate::request_fnf::RequestFNF;
use crate::wire::{
    lemma_rest_of_opt, lemma_u16_bytes, lemma_u32_bytes, lemma_u64_bytes, opt_bytes, opt_len, opt_view, put_opt,
    put_u16, put_u32, put_u64, read_rest, read_u16, read_u32, read_u64, rest_of, skip, u16_at,
    u16_bytes, u32_at, u32_bytes, u64_at, u64_bytes,
};

verus! {

#[derive(Debug, PartialEq)]
pub enum Body {
    Setup {
        major_version: u16,
        minor_version: u16,
        keepalive: u32,
        lifetime: u32,
        resume_token: Option<Vec<u8>>,
        mime_metadata: Vec<u8>,
        mime_data: Vec<u8>,
        metadata: Option<Vec<u8>>,
        data: Option<Vec<u8>>,
    },
    Lease { ttl: u32, number_of_requests: u32, metadata: Option<Vec<u8>> },
    Keepalive { last_received_position: u64, data: Option<Vec<u8>> },
    RequestFNF(RequestFNF),
    RequestResponse { metadata: Option<Vec<u8>>, data: Option<Vec<u8>> },
    RequestStream { initial_request_n: u32, metadata: Option<Vec<u8>>, data: Option<Vec<u8>> },
    RequestChannel { initial_request_n: u32, metadata: Option<Vec<u8>>, data: Option<Vec<u8>> },
    RequestN { n: u32 },
    Cancel(),
    Payload { metadata: Option<Vec<u8>>, data: Option<Vec<u8>> },
    Error { code: u32, data: Option<Vec<u8>> },
    MetadataPush { metadata: Option<Vec<u8>>, data: Option<Vec<u8>> },
    Resume {
        major_version: u16,
        minor_version: u16,
        token: Vec<u8>,
        last_received_server_position: u64,
        first_available_client_position: u64,
    },
    ResumeOK { last_received_client_position: u64 },
}

/// The model of a body: byte buffers become sequences, pairs become `PayloadView`.
pub enum BodyView {
    Setup {
        major_version: u16,
        minor_version: u16,
        keepalive: u32,
        lifetime: u32,
        resume_token: Option<Seq<u8>>,
        mime_metadata: Seq<u8>,
        mime_data: Seq<u8>,
        payload: PayloadView,
    },
    Lease { ttl: u32, number_of_requests: u32, metadata: Option<Seq<u8>> },
    Keepalive { last_received_position: u64, data: Option<Seq<u8>> },
    RequestFNF(PayloadView),
    RequestResponse(PayloadView),
    RequestStream { initial_request_n: u32, payload: PayloadView },
    RequestChannel { initial_request_n: u32, payload: PayloadView },
    RequestN { n: u32 },
    Cancel,
    Payload(PayloadView),
    Error { code: u32, data: Option<Seq<u8>> },
    MetadataPush(PayloadView),
    Resume {
        major_version: u16,
        minor_version: u16,
        token: Seq<u8>,
        last_received_server_position: u64,
        first_available_client_position: u64,
    },
    ResumeOK { last_received_client_position: u64 },
}

pub open spec fn pair(metadata: &Option<Vec<u8>>, data: &Option<Vec<u8>>) -> PayloadView {
    PayloadView { metadata: opt_view(metadata), data: opt_view(data) }
}

impl View for Body {
    type V = BodyView;

    open spec fn view(&self) -> BodyView {
        match self {
            Body::Setup {
                major_version,
                minor_version,
                keepalive,
                lifetime,
                resume_token,
                mime_metadata,
                mime_data,
                metadata,
                data,
            } => BodyView::Setup {
                major_version: *major_version,
                minor_version: *minor_version,
                keepalive: *keepalive,
                lifetime: *lifetime,
                resume_token: opt_view(resume_token),
                mime_metadata: mime_metadata@,
                mime_data: mime_data@,
                payload: pair(metadata, data),
            },
            Body::Lease { ttl, number_of_requests, metadata } => BodyView::Lease {
                ttl: *ttl,
                number_of_requests: *number_of_requests,
                metadata: opt_view(metadata),
            },
            Body::Keepalive { last_received_position, data } => BodyView::Keepalive {
                last_received_position: *last_received_position,
                data: opt_view(data),
            },
            Body::RequestFNF(v) => BodyView::RequestFNF(v@),
            Body::RequestResponse { metadata, data } => BodyView::RequestResponse(
                pair(metadata, data),
            ),
            Body::RequestStream { initial_request_n, metadata, data } => BodyView::RequestStream {
                initial_request_n: *initial_request_n,
                payload: pair(metadata, data),
            },
            Body::RequestChannel { initial_request_n, metadata, data } => BodyView::RequestChannel {
                initial_request_n: *initial_request_n,
                payload: pair(metadata, data),
            },
            Body::RequestN { n } => BodyView::RequestN { n: *n },
            Body::Cancel() => BodyView::Cancel,
            Body::Payload { metadata, data } => BodyView::Payload(pair(metadata, data)),
            Body::Error { code, data } => BodyView::Error { code: *code, data: opt_view(data) },
            Body::MetadataPush { metadata, data } => BodyView::MetadataPush(pair(metadata, data)),
            Body::Resume {
                major_version,
                minor_version,
                token,
                last_received_server_position,
                first_available_client_position,
            } => BodyView::Resume {
                major_version: *major_version,
                minor_version: *minor_version,
                token: token@,
                last_received_server_position: *last_received_server_position,
                first_available_client_position: *first_available_client_position,
            },
            Body::ResumeOK { last_received_client_position } => BodyView::ResumeOK {
                last_received_client_position: *last_received_client_position,
            },
        }
    }
}

/// The six-bit type code of each kind.
pub open spec fn type_code(b: BodyView) -> u16 {
    match b {
        BodyView::Setup { .. } => TYPE_SETUP,
        BodyView::Lease { .. } => TYPE_LEASE,
        BodyView::Keepalive { .. } => TYPE_KEEPALIVE,
        BodyView::RequestFNF(_) => TYPE_REQUEST_FNF,
        BodyView::RequestResponse(_) => TYPE_REQUEST_RESPONSE,
        BodyView::RequestStream { .. } => TYPE_REQUEST_STREAM,
        BodyView::RequestChannel { .. } => TYPE_REQUEST_CHANNEL,
        BodyView::RequestN { .. } => TYPE_REQUEST_N,
        BodyView::Cancel => TYPE_CANCEL,
        BodyView::Payload(_) => TYPE_PAYLOAD,
        BodyView::Error { .. } => TYPE_ERROR,
        BodyView::MetadataPush(_) => TYPE_METADATA_PUSH,
        BodyView::Resume { .. } => TYPE_RESUME,
        BodyView::ResumeOK { .. } => TYPE_RESUME_OK,
    }
}

/// The resume token of a setup frame, after its two-byte length.
pub open spec fn token_bytes(token: Option<Seq<u8>>) -> Seq<u8> {
    match token {
        Some(t) => long_bytes(t),
        None => Seq::empty(),
    }
}

/// The body on the wire, without the header.
pub open spec fn body_bytes(b: BodyView) -> Seq<u8> {
    match b {
        BodyView::Setup {
            major_version,
            minor_version,
            keepalive,
            lifetime,
            resume_token,
            mime_metadata,
            mime_data,
            payload,
        } => u16_bytes(major_version) + u16_bytes(minor_version) + u32_bytes(keepalive)
            + u32_bytes(lifetime) + token_bytes(resume_token) + short_bytes(mime_metadata) + short_bytes(
            mime_data,
        ) + payload_bytes(payload),
        BodyView::Lease { ttl, number_of_requests, metadata } => u32_bytes(ttl) + u32_bytes(
            number_of_requests,
        ) + opt_bytes(metadata),
        BodyView::Keepalive { last_received_position, data } => u64_bytes(last_received_position)
            + opt_bytes(data),
        BodyView::RequestFNF(p) => payload_bytes(p),
        BodyView::RequestResponse(p) => payload_bytes(p),
        BodyView::RequestStream { initial_request_n, payload } => u32_bytes(initial_request_n)
            + payload_bytes(payload),
        BodyView::RequestChannel { initial_request_n, payload } => u32_bytes(initial_request_n)
            + payload_bytes(payload),
        BodyView::RequestN { n } => u32_bytes(n),
        BodyView::Cancel => Seq::empty(),
        BodyView::Payload(p) => payload_bytes(p),
        BodyView::Error { code, data } => u32_bytes(code) + opt_bytes(data),
        BodyView::MetadataPush(p) => payload_bytes(p),
        BodyView::Resume {
            major_version,
            minor_version,
            token,
            last_received_server_position,
            first_available_client_position,
        } => u16_bytes(major_version) + u16_bytes(minor_version) + long_bytes(token) + u64_bytes(
            last_received_server_position,
        ) + u64_bytes(first_available_client_position),
        BodyView::ResumeOK { last_received_client_position } => u64_bytes(
            last_received_client_position,
        ),
    }
}

/// Every length prefix of the body can hold the length it announces.
pub open spec fn body_encodable(b: BodyView) -> bool {
    match b {
        BodyView::Setup { resume_token, mime_metadata, mime_data, payload, .. } => {
            &&& match resume_token {
                Some(t) => t.len() < 0x1_0000,
                None => true,
            }
            &&& mime_metadata.len() < 256
            &&& mime_data.len() < 256
            &&& payload_encodable(payload)
        },
        BodyView::RequestFNF(p) => payload_encodable(p),
        BodyView::RequestResponse(p) => payload_encodable(p),
        BodyView::RequestStream { payload, .. } => payload_encodable(payload),
        BodyView::RequestChannel { payload, .. } => payload_encodable(payload),
        BodyView::Payload(p) => payload_encodable(p),
        BodyView::MetadataPush(p) => payload_encodable(p),
        BodyView::Resume { token, .. } => token.len() < 0x1_0000,
        _ => true,
    }
}

/// The body reads back as itself under `flag`: it can be written, the flags
/// agree with the optional fields they announce, and no data that runs to the
/// end of the frame is present and empty.
pub open spec fn body_fits(flag: u16, b: BodyView) -> bool {
    &&& body_encodable(b)
    &&& match b {
        BodyView::Setup { resume_token, payload, .. } => {
            &&& (has_flag(flag, FLAG_RESUME) <==> resume_token is Some)
            &&& payload_fits(flag, payload)
        },
        BodyView::Lease { metadata, .. } => metadata_consistent(flag, metadata),
        BodyView::Keepalive { data, .. } => data != Some(Seq::<u8>::empty()),
        BodyView::RequestFNF(p) => payload_fits(flag, p),
        BodyView::RequestResponse(p) => payload_fits(flag, p),
        BodyView::RequestStream { payload, .. } => payload_fits(flag, payload),
        BodyView::RequestChannel { payload, .. } => payload_fits(flag, payload),
        BodyView::Payload(p) => payload_fits(flag, p),
        BodyView::Error { data, .. } => data != Some(Seq::<u8>::empty()),
        BodyView::MetadataPush(p) => payload_fits(flag, p),
        _ => true,
    }
}

/// The resume token of a setup frame, present when the resume flag is set.
pub open spec fn parse_token(flag: u16, s: Seq<u8>) -> Option<(Option<Seq<u8>>, Seq<u8>)> {
    if has_flag(flag, FLAG_RESUME) {
        match parse_long(s) {
            Some((t, rest)) => Some((Some(t), rest)),
            None => None,
        }
    } else {
        Some((None, s))
    }
}

pub open spec fn parse_setup(flag: u16, s: Seq<u8>) -> Option<BodyView> {
    if s.len() < 12 {
        None
    } else {
        match parse_token(flag, s.skip(12)) {
            None => None,
            Some((resume_token, s1)) => match parse_short(s1) {
                None => None,
                Some((mime_metadata, s2)) => match parse_short(s2) {
                    None => None,
                    Some((mime_data, s3)) => match parse_payload(flag, s3) {
                        None => None,
                        Some(payload) => Some(
                            BodyView::Setup {
                                major_version: u16_at(s),
                                minor_version: u16_at(s.skip(2)),
                                keepalive: u32_at(s.skip(4)),
                                lifetime: u32_at(s.skip(8)),
                                resume_token,
                                mime_metadata,
                                mime_data,
                                payload,
                            },
                        ),
                    },
                },
            },
        }
    }
}

pub open spec fn parse_resume(s: Seq<u8>) -> Option<BodyView> {
    if s.len() < 4 {
        None
    } else {
        match parse_long(s.skip(4)) {
            None => None,
            Some((token, s1)) => if s1.len() < 16 {
                None
            } else {
                Some(
                    BodyView::Resume {
                        major_version: u16_at(s),
                        minor_version: u16_at(s.skip(2)),
                        token,
                        last_received_server_position: u64_at(s1),
                        first_available_client_position: u64_at(s1.skip(8)),
                    },
                )
            },
        }
    }
}

/// The body of a frame of kind `type_code` read from `s`, `None` when `s` is
/// too short for it.
pub open spec fn parse_known(type_code: u16, flag: u16, s: Seq<u8>) -> Option<BodyView> {
    if type_code == TYPE_SETUP {
        parse_setup(flag, s)
    } else if type_code == TYPE_LEASE {
        if s.len() < 8 {
            None
        } else {
            Some(
                BodyView::Lease {
                    ttl: u32_at(s),
                    number_of_requests: u32_at(s.skip(4)),
                    metadata: if has_flag(flag, FLAG_METADATA) {
                        Some(s.skip(8))
                    } else {
                        None
                    },
                },
            )
        }
    } else if type_code == TYPE_KEEPALIVE {
        if s.len() < 8 {
            None
        } else {
            Some(
                BodyView::Keepalive {
                    last_received_position: u64_at(s),
                    data: rest_of(s.skip(8)),
                },
            )
        }
    } else if type_code == TYPE_REQUEST_FNF {
        match parse_payload(flag, s) {
            Some(p) => Some(BodyView::RequestFNF(p)),
            None => None,
        }
    } else if type_code == TYPE_REQUEST_RESPONSE {
        match parse_payload(flag, s) {
            Some(p) => Some(BodyView::RequestResponse(p)),
            None => None,
        }
    } else if type_code == TYPE_REQUEST_STREAM || type_code == TYPE_REQUEST_CHANNEL {
        if s.len() < 4 {
            None
        } else {
            match parse_payload(flag, s.skip(4)) {
                Some(payload) => Some(
                    if type_code == TYPE_REQUEST_STREAM {
                        BodyView::RequestStream { initial_request_n: u32_at(s), payload }
                    } else {
                        BodyView::RequestChannel { initial_request_n: u32_at(s), payload }
                    },
                ),
                None => None,
            }
        }
    } else if type_code == TYPE_REQUEST_N {
        if s.len() < 4 {
            None
        } else {
            Some(BodyView::RequestN { n: u32_at(s) })
        }
    } else if type_code == TYPE_CANCEL {
        Some(BodyView::Cancel)
    } else if type_code == TYPE_PAYLOAD {
        match parse_payload(flag, s) {
            Some(p) => Some(BodyView::Payload(p)),
            None => None,
        }
    } else if type_code == TYPE_ERROR {
        if s.len() < 4 {
            None
        } else {
            Some(BodyView::Error { code: u32_at(s), data: rest_of(s.skip(4)) })
        }
    } else if type_code == TYPE_METADATA_PUSH {
        match parse_payload(flag, s) {
            Some(p) => Some(BodyView::MetadataPush(p)),
            None => None,
        }
    } else if type_code == TYPE_RESUME {
        parse_resume(s)
    } else {
        if s.len() < 8 {
            None
        } else {
            Some(BodyView::ResumeOK { last_received_client_position: u64_at(s) })
        }
    }
}

/// Whether `type_code` names a frame kind.
pub open spec fn is_known_type(type_code: u16) -> bool {
    TYPE_SETUP <= type_code <= TYPE_RESUME_OK
}

/// The body of a frame of kind `type_code` read from `s`.
pub open spec fn parse_body(type_code: u16, flag: u16, s: Seq<u8>) -> Result<
    BodyView,
    FrameDecodeError,
> {
    if !is_known_type(type_code) {
        Err(FrameDecodeError::IllegalFrameType)
    } else {
        match parse_known(type_code, flag, s) {
            Some(b) => Ok(b),
            None => Err(FrameDecodeError::Truncated),
        }
    }
}


/// Every kind has a type code that `parse_body` knows.
pub proof fn lemma_type_code_known(b: BodyView)
    ensures
        is_known_type(type_code(b)),
        type_code(b) < 64,
{
}

proof fn lemma_setup_round_trip(flag: u16, b: BodyView)
    requires
        b is Setup,
        body_fits(flag, b),
    ensures
        parse_setup(flag, body_bytes(b)) == Some(b),
{
    let s = body_bytes(b);
    match b {
        BodyView::Setup {
            major_version,
            minor_version,
            keepalive,
            lifetime,
            resume_token,
            mime_metadata,
            mime_data,
            payload,
        } => {
            let s3 = payload_bytes(payload);
            let s2 = short_bytes(mime_data) + s3;
            let s1 = short_bytes(mime_metadata) + s2;
            let s0 = token_bytes(resume_token) + s1;
            assert(s =~= u16_bytes(major_version) + (u16_bytes(minor_version) + (u32_bytes(
                keepalive,
            ) + (u32_bytes(lifetime) + s0))));
            lemma_u16_bytes(major_version, u16_bytes(minor_version) + (u32_bytes(keepalive) + (
            u32_bytes(lifetime) + s0)));
            let t1 = s.skip(2);
            lemma_u16_bytes(minor_version, u32_bytes(keepalive) + (u32_bytes(lifetime) + s0));
            assert(s.skip(4) =~= t1.skip(2));
            lemma_u32_bytes(keepalive, u32_bytes(lifetime) + s0);
            assert(s.skip(8) =~= s.skip(4).skip(4));
            lemma_u32_bytes(lifetime, s0);
            assert(s.skip(12) =~= s.skip(8).skip(4));
            match resume_token {
                Some(t) => lemma_long_round_trip(t, s1),
                None => assert(s0 =~= s1),
            }
            lemma_short_round_trip(mime_metadata, s2);
            lemma_short_round_trip(mime_data, s3);
            lemma_payload_round_trip(flag, payload);

        },
        _ => {},
    }
}

proof fn lemma_resume_round_trip(b: BodyView)
    requires
        b is Resume,
        body_encodable(b),
    ensures
        parse_resume(body_bytes(b)) == Some(b),
{
    let s = body_bytes(b);
    match b {
        BodyView::Resume {
            major_version,
            minor_version,
            token,
            last_received_server_position,
            first_available_client_position,
        } => {
            let tail = u64_bytes(last_received_server_position) + u64_bytes(
                first_available_client_position,
            );
            assert(s =~= u16_bytes(major_version) + (u16_bytes(minor_version) + (long_bytes(token)
                + tail)));
            lemma_u16_bytes(major_version, u16_bytes(minor_version) + (long_bytes(token) + tail));
            lemma_u16_bytes(minor_version, long_bytes(token) + tail);
            assert(s.skip(4) =~= s.skip(2).skip(2));
            lemma_long_round_trip(token, tail);
            lemma_u64_bytes(last_received_server_position, u64_bytes(
                first_available_client_position,
            ));
            lemma_u64_bytes(first_available_client_position, Seq::empty());
            assert(u64_bytes(first_available_client_position) =~= u64_bytes(
                first_available_client_position,
            ) + Seq::<u8>::empty());

        },
        _ => {},
    }
}

/// A body that fits its flags reads back as itself from its own bytes.
pub proof fn lemma_body_round_trip(flag: u16, b: BodyView)
    requires
        body_fits(flag, b),
    ensures
        parse_body(type_code(b), flag, body_bytes(b)) == Ok::<BodyView, FrameDecodeError>(b),
{
    let s = body_bytes(b);
    match b {
        BodyView::Setup { .. } => lemma_setup_round_trip(flag, b),
        BodyView::Lease { ttl, number_of_requests, metadata } => {
            let m = opt_bytes(metadata);
            assert(s =~= u32_bytes(ttl) + (u32_bytes(number_of_requests) + m));
            lemma_u32_bytes(ttl, u32_bytes(number_of_requests) + m);
            lemma_u32_bytes(number_of_requests, m);
            assert(s.skip(8) =~= s.skip(4).skip(4));
        },
        BodyView::Keepalive { last_received_position, data } => {
            lemma_u64_bytes(last_received_position, opt_bytes(data));
            lemma_rest_of_opt(data);
        },
        BodyView::RequestFNF(p) => lemma_payload_round_trip(flag, p),
        BodyView::RequestResponse(p) => lemma_payload_round_trip(flag, p),
        BodyView::RequestStream { initial_request_n, payload } => {
            lemma_u32_bytes(initial_request_n, payload_bytes(payload));
            lemma_payload_round_trip(flag, payload);
        },
        BodyView::RequestChannel { initial_request_n, payload } => {
            lemma_u32_bytes(initial_request_n, payload_bytes(payload));
            lemma_payload_round_trip(flag, payload);
        },
        BodyView::RequestN { n } => {
            lemma_u32_bytes(n, Seq::empty());
            assert(s =~= u32_bytes(n) + Seq::<u8>::empty());
        },
        BodyView::Cancel => {},
        BodyView::Payload(p) => lemma_payload_round_trip(flag, p),
        BodyView::Error { code, data } => {
            lemma_u32_bytes(code, opt_bytes(data));
            lemma_rest_of_opt(data);
        },
        BodyView::MetadataPush(p) => lemma_payload_round_trip(flag, p),
        BodyView::Resume { .. } => lemma_resume_round_trip(b),
        BodyView::ResumeOK { last_received_client_position } => {
            lemma_u64_bytes(last_received_client_position, Seq::empty());
            assert(s =~= u64_bytes(last_received_client_position) + Seq::<u8>::empty());
        },
    }
}

fn decode_setup(flag: u16, b: &[u8]) -> (r: Option<Body>)
    ensures
        match r {
            Some(body) => parse_setup(flag, b@) == Some(body@),
            None => parse_setup(flag, b@) is None,
        },
{
    if b.len() < 12 {
        return None;
    }
    let major_version = read_u16(b);
    let minor_version = read_u16(skip(b, 2));
    let keepalive = read_u32(skip(b, 4));
    let lifetime = read_u32(skip(b, 8));
    let s0 = skip(b, 12);
    let (resume_token, s1) = if flag & FLAG_RESUME == FLAG_RESUME {
        match read_long(s0) {
            Some((t, rest)) => (Some(t), rest),
            None => return None,
        }
    } else {
        (None, s0)
    };
    let (mime_metadata, s2) = match read_short(s1) {
        Some(x) => x,
        None => return None,
    };
    let (mime_data, s3) = match read_short(s2) {
        Some(x) => x,
        None => return None,
    };
    let (metadata, data) = match read_payload(flag, s3) {
        Ok(x) => x,
        Err(_) => return None,
    };
    Some(
        Body::Setup {
            major_version,
            minor_version,
            keepalive,
            lifetime,
            resume_token,
            mime_metadata,
            mime_data,
            metadata,
            data,
        },
    )
}

fn decode_resume(b: &[u8]) -> (r: Option<Body>)
    ensures
        match r {
            Some(body) => parse_resume(b@) == Some(body@),
            None => parse_resume(b@) is None,
        },
{
    if b.len() < 4 {
        return None;
    }
    let major_version = read_u16(b);
    let minor_version = read_u16(skip(b, 2));
    let (token, s1) = match read_long(skip(b, 4)) {
        Some(x) => x,
        None => return None,
    };
    if s1.len() < 16 {
        return None;
    }
    let last_received_server_position = read_u64(s1);
    let first_available_client_position = read_u64(skip(s1, 8));
    Some(
        Body::Resume {
            major_version,
            minor_version,
            token,
            last_received_server_position,
            first_available_client_position,
        },
    )
}

fn decode_known(type_code: u16, flag: u16, b: &[u8]) -> (r: Option<Body>)
    requires
        is_known_type(type_code),
    ensures
        match r {
            Some(body) => parse_known(type_code, flag, b@) == Some(body@),
            None => parse_known(type_code, flag, b@) is None,
        },
{
    if type_code == TYPE_SETUP {
        decode_setup(flag, b)
    } else if type_code == TYPE_LEASE {
        if b.len() < 8 {
            return None;
        }
        let ttl = read_u32(b);
        let number_of_requests = read_u32(skip(b, 4));
        let metadata = if flag & FLAG_METADATA == FLAG_METADATA {
            let rest = skip(b, 8);
            let m = vstd::slice::slice_to_vec(rest);
            Some(m)
        } else {
            None
        };
        Some(Body::Lease { ttl, number_of_requests, metadata })
    } else if type_code == TYPE_KEEPALIVE {
        if b.len() < 8 {
            return None;
        }
        let last_received_position = read_u64(b);
        Some(Body::Keepalive { last_received_position, data: read_rest(skip(b, 8)) })
    } else if type_code == TYPE_REQUEST_FNF {
        match RequestFNF::decode(flag, b) {
            Ok(v) => Some(Body::RequestFNF(v)),
            Err(_) => None,
        }
    } else if type_code == TYPE_REQUEST_RESPONSE {
        match read_payload(flag, b) {
            Ok((metadata, data)) => Some(Body::RequestResponse { metadata, data }),
            Err(_) => None,
        }
    } else if type_code == TYPE_REQUEST_STREAM || type_code == TYPE_REQUEST_CHANNEL {
        if b.len() < 4 {
            return None;
        }
        let initial_request_n = read_u32(b);
        match read_payload(flag, skip(b, 4)) {
            Ok((metadata, data)) => Some(
                if type_code == TYPE_REQUEST_STREAM {
                    Body::RequestStream { initial_request_n, metadata, data }
                } else {
                    Body::RequestChannel { initial_request_n, metadata, data }
                },
            ),
            Err(_) => None,
        }
    } else if type_code == TYPE_REQUEST_N {
        if b.len() < 4 {
            return None;
        }
        Some(Body::RequestN { n: read_u32(b) })
    } else if type_code == TYPE_CANCEL {
        Some(Body::Cancel())
    } else if type_code == TYPE_PAYLOAD {
        match read_payload(flag, b) {
            Ok((metadata, data)) => Some(Body::Payload { metadata, data }),
            Err(_) => None,
        }
    } else if type_code == TYPE_ERROR {
        if b.len() < 4 {
            return None;
        }
        let code = read_u32(b);
        Some(Body::Error { code, data: read_rest(skip(b, 4)) })
    } else if type_code == TYPE_METADATA_PUSH {
        match read_payload(flag, b) {
            Ok((metadata, data)) => Some(Body::MetadataPush { metadata, data }),
            Err(_) => None,
        }
    } else if type_code == TYPE_RESUME {
        decode_resume(b)
    } else {
        if b.len() < 8 {
            return None;
        }
        Some(Body::ResumeOK { last_received_client_position: read_u64(b) })
    }
}

impl Body {
    /// Whether every length prefix of the body can hold the length it announces.
    pub fn is_writable(&self) -> (r: bool)
        ensures
            r == body_encodable(self@),
    {
        match self {
            Body::Setup { resume_token, mime_metadata, mime_data, metadata, data, .. } => {
                let token_fits = match resume_token {
                    Some(t) => t.len() < 0x1_0000,
                    None => true,
                };
                token_fits && mime_metadata.len() < 256 && mime_data.len() < 256
                    && payload_writable(metadata, data)
            },
            Body::RequestFNF(v) => v.is_writable(),
            Body::RequestResponse { metadata, data } => payload_writable(metadata, data),
            Body::RequestStream { metadata, data, .. } => payload_writable(metadata, data),
            Body::RequestChannel { metadata, data, .. } => payload_writable(metadata, data),
            Body::Payload { metadata, data } => payload_writable(metadata, data),
            Body::MetadataPush { metadata, data } => payload_writable(metadata, data),
            Body::Resume { token, .. } => token.len() < 0x1_0000,
            _ => true,
        }
    }

    /// Reads the body of a frame of kind `type_code` from the bytes after the header.
    pub fn decode(type_code: u16, flag: u16, b: &[u8]) -> (r: Result<Body, FrameDecodeError>)
        ensures
            match r {
                Ok(body) => parse_body(type_code, flag, b@) == Ok::<BodyView, FrameDecodeError>(
                    body@,
                ),
                Err(e) => parse_body(type_code, flag, b@) == Err::<BodyView, FrameDecodeError>(e),
            },
    {
        if type_code < TYPE_SETUP || type_code > TYPE_RESUME_OK {
            return Err(FrameDecodeError::IllegalFrameType);
        }
        match decode_known(type_code, flag, b) {
            Some(body) => Ok(body),
            None => Err(FrameDecodeError::Truncated),
        }
    }
}


impl Writeable for Body {
    open spec fn wire(&self) -> Seq<u8> {
        body_bytes(self@)
    }

    open spec fn writable(&self) -> bool {
        body_encodable(self@)
    }

    fn write_to(&self, bf: &mut Vec<u8>) {
        let ghost start = bf@;
        match self {
            Body::Setup {
                major_version,
                minor_version,
                keepalive,
                lifetime,
                resume_token,
                mime_metadata,
                mime_data,
                metadata,
                data,
            } => {
                put_u16(bf, *major_version);
                put_u16(bf, *minor_version);
                put_u32(bf, *keepalive);
                put_u32(bf, *lifetime);
                let ghost mid = bf@;
                match resume_token {
                    Some(t) => put_long(bf, t),
                    None => {},
                }
                assert(bf@ =~= mid + token_bytes(opt_view(resume_token)));
                put_short(bf, mime_metadata);
                put_short(bf, mime_data);
                write_payload(bf, metadata, data);
            },
            Body::Lease { ttl, number_of_requests, metadata } => {
                put_u32(bf, *ttl);
                put_u32(bf, *number_of_requests);
                put_opt(bf, metadata);
            },
            Body::Keepalive { last_received_position, data } => {
                put_u64(bf, *last_received_position);
                put_opt(bf, data);
            },
            Body::RequestFNF(v) => v.write_to(bf),
            Body::RequestResponse { metadata, data } => write_payload(bf, metadata, data),
            Body::RequestStream { initial_request_n, metadata, data } => {
                put_u32(bf, *initial_request_n);
                write_payload(bf, metadata, data);
            },
            Body::RequestChannel { initial_request_n, metadata, data } => {
                put_u32(bf, *initial_request_n);
                write_payload(bf, metadata, data);
            },
            Body::RequestN { n } => put_u32(bf, *n),
            Body::Cancel() => {},
            Body::Payload { metadata, data } => write_payload(bf, metadata, data),
            Body::Error { code, data } => {
                put_u32(bf, *code);
                put_opt(bf, data);
            },
            Body::MetadataPush { metadata, data } => write_payload(bf, metadata, data),
            Body::Resume {
                major_version,
                minor_version,
                token,
                last_received_server_position,
                first_available_client_position,
            } => {
                put_u16(bf, *major_version);
                put_u16(bf, *minor_version);
                put_long(bf, token);
                put_u64(bf, *last_received_server_position);
                put_u64(bf, *first_available_client_position);
            },
            Body::ResumeOK { last_received_client_position } => {
                put_u64(bf, *last_received_client_position);
            },
        }
        assert(bf@ =~= start + body_bytes(self@));
    }

    fn len(&self) -> (r: usize) {
        match self {
            Body::Setup { resume_token, mime_metadata, mime_data, metadata, data, .. } => {
                let t: usize = match resume_token {
                    Some(t) => 2 + t.len(),
                    None => 0,
                };
                12 + t + 1 + mime_metadata.len() + 1 + mime_data.len() + payload_len(
                    metadata,
                    data,
                )
            },
            Body::Lease { metadata, .. } => 8 + opt_len(metadata),
            Body::Keepalive { data, .. } => 8 + opt_len(data),
            Body::RequestFNF(v) => v.len(),
            Body::RequestResponse { metadata, data } => payload_len(metadata, data),
            Body::RequestStream { metadata, data, .. } => 4 + payload_len(metadata, data),
            Body::RequestChannel { metadata, data, .. } => 4 + payload_len(metadata, data),
            Body::RequestN { .. } => 4,
            Body::Cancel() => 0,
            Body::Payload { metadata, data } => payload_len(metadata, data),
            Body::Error { data, .. } => 4 + opt_len(data),
            Body::MetadataPush { metadata, data } => payload_len(metadata, data),
            Body::Resume { token, .. } => 2 + 2 + 2 + token.len() + 8 + 8,
            Body::ResumeOK { .. } => 8,
        }
    }
}

} // verus!
