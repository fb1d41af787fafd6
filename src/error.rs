use vstd::prelude::*;

verus! {

/// Why a tag could not be decoded.
#[derive(Debug, Clone, Copy, PartialEq, Eq, Structural)]
pub enum DecodeError {
    /// Fewer bytes were left than a fixed-width or declared-length read needs.
    TruncatedInput,
    /// A seek would have moved the cursor before the start of the data, or past
    /// the largest position a cursor can hold.
    SeekOutOfRange,
    /// A frame is compressed or encrypted, which this decoder does not support.
    UnsupportedFeature,
    /// The first three bytes of the tag are not `ID3`.
    InvalidTagMarker,
}

} // verus!
