//! A read-only decoder for ID3v2 tags: the tag header, the optional extended
//! header and the sequence of frames, with lookup of frames by identifier.

mod error;
mod flags;
mod frame;
mod reader;
mod tag;
mod text;

pub use error::DecodeError;
pub use flags::{ID3FrameHeaderFlags, ID3FrameHeaderFlagsV3, ID3HeaderFlags};
pub use frame::{FrameLayout, ID3Frame, ID3FrameHeader};
pub use reader::{encode_syncsafe, ByteReader, SeekFrom};
pub use tag::{ID3Body, ID3ExtendedHeader, ID3Header, ID3};
pub use text::{decode_bytes, decode_text};
