//! Fire-and-forget requests: a metadata/data pair and no response.
use vstd::prelude::*;
use crate::body::{Body, BodyView};
use crate::errors::FrameDecodeError;
use crate::frame::{Frame, FrameView, Writeable};
use crate::header::FLAG_METADATA;
use crate::payload::{
    metadata_consistent, parse_payload, payload_bytes, payload_encodable, payload_len,
    payload_writable, read_payload, write_payload, PayloadView,
};
use crate::wire::opt_view;

verus! {

#[derive(Debug, PartialEq)]
pub struct RequestFNF {
    metadata: Option<Vec<u8>>,
    data: Option<Vec<u8>>,
}

/// Assembles a fire-and-forget frame, keeping the metadata flag in step with
/// the metadata.
pub struct RequestFNFBuilder {
    stream_id: u32,
    flag: u16,
    value: RequestFNF,
}

/// What a builder holds: stream id, flags and the pair so far.
pub struct BuilderView {
    pub stream_id: u32,
    pub flag: u16,
    pub value: PayloadView,
}

impl View for RequestFNF {
    type V = PayloadView;

    closed spec fn view(&self) -> PayloadView {
        PayloadView { metadata: opt_view(&self.metadata), data: opt_view(&self.data) }
    }
}

impl View for RequestFNFBuilder {
    type V = BuilderView;

    closed spec fn view(&self) -> BuilderView {
        BuilderView { stream_id: self.stream_id, flag: self.flag, value: self.value@ }
    }
}

impl RequestFNFBuilder {
    /// The metadata flag is set exactly when metadata is present.
    #[verifier::type_invariant]
    spec fn flag_matches_metadata(&self) -> bool {
        metadata_consistent(self.flag, opt_view(&self.value.metadata))
    }

    /// Starts with no metadata and no data, so the metadata flag is cleared.
    fn new(stream_id: u32, flag: u16) -> (r: RequestFNFBuilder)
        ensures
            r@ == (BuilderView {
                stream_id,
                flag: flag & !FLAG_METADATA,
                value: PayloadView { metadata: None, data: None },
            }),
            metadata_consistent(r@.flag, r@.value.metadata),
    {
        let cleared = flag & !FLAG_METADATA;
        assert((flag & !0x100u16) & 0x100u16 == 0u16) by (bit_vector);
        RequestFNFBuilder {
            stream_id,
            flag: cleared,
            value: RequestFNF { metadata: None, data: None },
        }
    }

    /// The frame with the stream id, flags and pair gathered so far.
    pub fn build(self) -> (r: Frame)
        ensures
            r@ == (FrameView {
                stream_id: self@.stream_id,
                flag: self@.flag,
                body: BodyView::RequestFNF(self@.value),
            }),
            metadata_consistent(r@.flag, self@.value.metadata),
    {
        proof {
            use_type_invariant(&self);
        }
        let RequestFNFBuilder { stream_id, flag, value } = self;
        Frame::new(stream_id, Body::RequestFNF(value), flag)
    }

    /// Sets the metadata and raises the metadata flag.
    pub fn set_metadata(self, metadata: Vec<u8>) -> (r: Self)
        ensures
            r@.stream_id == self@.stream_id,
            r@.flag == self@.flag | FLAG_METADATA,
            r@.value == (PayloadView { metadata: Some(metadata@), data: self@.value.data }),
            metadata_consistent(r@.flag, r@.value.metadata),
    {
        let RequestFNFBuilder { stream_id, flag, value } = self;
        let RequestFNF { metadata: _, data } = value;
        assert((flag | 0x100u16) & 0x100u16 == 0x100u16) by (bit_vector);
        RequestFNFBuilder {
            stream_id,
            flag: flag | FLAG_METADATA,
            value: RequestFNF { metadata: Some(metadata), data },
        }
    }

    /// Sets the data; flags and metadata stay as they were.
    pub fn set_data(self, data: Vec<u8>) -> (r: Self)
        ensures
            r@ == (BuilderView {
                value: PayloadView { data: Some(data@), ..self@.value },
                ..self@
            }),
            metadata_consistent(r@.flag, r@.value.metadata),
    {
        proof {
            use_type_invariant(&self);
        }
        let RequestFNFBuilder { stream_id, flag, value } = self;
        let RequestFNF { metadata, data: _ } = value;
        RequestFNFBuilder { stream_id, flag, value: RequestFNF { metadata, data: Some(data) } }
    }

    /// Replaces data and metadata at once; the metadata flag is raised when
    /// metadata is given and cleared when it is not.
    pub fn set_all(self, data_and_metadata: (Option<Vec<u8>>, Option<Vec<u8>>)) -> (r: Self)
        ensures
            r@.stream_id == self@.stream_id,
            r@.value == (PayloadView {
                metadata: opt_view(&data_and_metadata.1),
                data: opt_view(&data_and_metadata.0),
            }),
            r@.flag == if data_and_metadata.1 is Some {
                self@.flag | FLAG_METADATA
            } else {
                self@.flag & !FLAG_METADATA
            },
            metadata_consistent(r@.flag, r@.value.metadata),
    {
        let RequestFNFBuilder { stream_id, flag, value: _ } = self;
        let (data, metadata) = data_and_metadata;
        match metadata {
            Some(m) => {
                assert((flag | 0x100u16) & 0x100u16 == 0x100u16) by (bit_vector);
                RequestFNFBuilder {
                    stream_id,
                    flag: flag | FLAG_METADATA,
                    value: RequestFNF { metadata: Some(m), data },
                }
            },
            None => {
                assert((flag & !0x100u16) & 0x100u16 == 0u16) by (bit_vector);
                RequestFNFBuilder {
                    stream_id,
                    flag: flag & !FLAG_METADATA,
                    value: RequestFNF { metadata: None, data },
                }
            },
        }
    }
}

impl RequestFNF {
    /// Reads the pair from the rest of a frame body.
    pub fn decode(flag: u16, bf: &[u8]) -> (r: Result<RequestFNF, FrameDecodeError>)
        ensures
            match r {
                Ok(v) => parse_payload(flag, bf@) == Some(v@),
                Err(e) => e == FrameDecodeError::Truncated && parse_payload(flag, bf@) is None,
            },
    {
        match read_payload(flag, bf) {
            Ok((metadata, data)) => Ok(RequestFNF { metadata, data }),
            Err(e) => Err(e),
        }
    }

    /// A builder for a frame on `stream_id` that starts from `flag` with the
    /// metadata flag cleared, and with no metadata and no data.
    pub fn builder(stream_id: u32, flag: u16) -> (r: RequestFNFBuilder)
        ensures
            r@ == (BuilderView {
                stream_id,
                flag: flag & !FLAG_METADATA,
                value: PayloadView { metadata: None, data: None },
            }),
            metadata_consistent(r@.flag, r@.value.metadata),
    {
        RequestFNFBuilder::new(stream_id, flag)
    }

    pub fn get_metadata(&self) -> (r: &Option<Vec<u8>>)
        ensures
            opt_view(r) == self@.metadata,
    {
        &self.metadata
    }

    pub fn get_data(&self) -> (r: &Option<Vec<u8>>)
        ensures
            opt_view(r) == self@.data,
    {
        &self.data
    }

    /// Whether the metadata's length fits its three-byte prefix.
    pub fn is_writable(&self) -> (r: bool)
        ensures
            r == self.writable(),
    {
        payload_writable(&self.metadata, &self.data)
    }

    /// Hands over data and metadata, in that order.
    pub fn split(self) -> (r: (Option<Vec<u8>>, Option<Vec<u8>>))
        ensures
            opt_view(&r.0) == self@.data,
            opt_view(&r.1) == self@.metadata,
    {
        (self.data, self.metadata)
    }
}

impl Writeable for RequestFNF {
    open spec fn wire(&self) -> Seq<u8> {
        payload_bytes(self@)
    }

    open spec fn writable(&self) -> bool {
        payload_encodable(self@)
    }

    fn write_to(&self, bf: &mut Vec<u8>) {
        write_payload(bf, &self.metadata, &self.data);
    }

    fn len(&self) -> (r: usize) {
        payload_len(&self.metadata, &self.data)
    }
}

} // verus!
