//! The one error of frame decoding.
use vstd::prelude::*;

verus! {

/// Why a byte sequence is not a frame.
#[derive(Debug, Clone, Copy, PartialEq, Eq, Structural)]
pub enum FrameDecodeError {
    /// The type code names no frame kind.
    IllegalFrameType,
    /// A field declares or needs more bytes than remain.
    Truncated,
}

impl FrameDecodeError {
    /// A short description of the error.
    pub fn message(&self) -> (r: &'static str)
        ensures
            *self == FrameDecodeError::IllegalFrameType ==> r@ == "illegal frame type"@,
            *self == FrameDecodeError::Truncated ==> r@ == "frame truncated"@,
    {
        match self {
            FrameDecodeError::IllegalFrameType => "illegal frame type",
            FrameDecodeError::Truncated => "frame truncated",
        }
    }
}

} // verus!
