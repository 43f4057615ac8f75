//! The binary frame codec of a reactive-streams wire protocol: frames to
//! bytes and back, bit for bit.
pub mod body;
pub mod errors;
pub mod frame;
pub mod header;
pub mod payload;
pub mod prefixed;
pub mod request_fnf;
pub mod wire;

pub use body::Body;
pub use errors::FrameDecodeError;
pub use frame::{Frame, Writeable};
pub use request_fnf::{RequestFNF, RequestFNFBuilder};
