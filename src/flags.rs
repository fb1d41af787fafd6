use vstd::prelude::*;

verus! {

/// The flags of the tag header.
#[derive(Debug, Clone, Copy, PartialEq, Eq, Structural)]
pub struct ID3HeaderFlags {
    pub unsynchronisation: bool,
    pub extended_header: bool,
    pub experimental: bool,
}

impl ID3HeaderFlags {
    /// The flags that bits 7, 6 and 5 of the header's flag byte set; the other
    /// bits are ignored.
    pub open spec fn spec_from_bits(b: u8) -> ID3HeaderFlags {
        ID3HeaderFlags {
            unsynchronisation: b & 0x80 != 0,
            extended_header: b & 0x40 != 0,
            experimental: b & 0x20 != 0,
        }
    }

    /// No flag set.
    pub fn empty() -> (r: ID3HeaderFlags)
        ensures
            r == ID3HeaderFlags::spec_from_bits(0),
            !r.unsynchronisation && !r.extended_header && !r.experimental,
    {
        assert(0u8 & 0x80 == 0 && 0u8 & 0x40 == 0 && 0u8 & 0x20 == 0) by (bit_vector);
        ID3HeaderFlags { unsynchronisation: false, extended_header: false, experimental: false }
    }

    /// Reads the header's flag byte, ignoring unknown bits.
    pub fn from_bits_truncate(b: u8) -> (r: ID3HeaderFlags)
        ensures
            r == ID3HeaderFlags::spec_from_bits(b),
    {
        ID3HeaderFlags {
            unsynchronisation: b & 0x80 != 0,
            extended_header: b & 0x40 != 0,
            experimental: b & 0x20 != 0,
        }
    }

    /// The flag byte these flags are read from, with the unknown bits clear.
    pub fn bits(&self) -> (r: u8)
        ensures
            ID3HeaderFlags::spec_from_bits(r) == *self,
            r & 0x1f == 0,
    {
        let a: u8 = if self.unsynchronisation { 0x80 } else { 0 };
        let b: u8 = if self.extended_header { 0x40 } else { 0 };
        let c: u8 = if self.experimental { 0x20 } else { 0 };
        assert((a == 0 || a == 0x80) && (b == 0 || b == 0x40) && (c == 0 || c == 0x20) ==> {
            &&& ((a | b | c) & 0x80 != 0) == (a == 0x80)
            &&& ((a | b | c) & 0x40 != 0) == (b == 0x40)
            &&& ((a | b | c) & 0x20 != 0) == (c == 0x20)
            &&& (a | b | c) & 0x1f == 0
        }) by (bit_vector);
        a | b | c
    }
}

/// The flags of a frame header, the same for both versions of the format.
#[derive(Debug, Clone, Copy, PartialEq, Eq, Structural)]
pub struct ID3FrameHeaderFlags {
    pub tag_alter_preserved: bool,
    pub file_alter_preserved: bool,
    pub read_only: bool,
    pub grouping: bool,
    pub compressed: bool,
    pub encrypted: bool,
    pub unsynchronisation: bool,
    pub data_length_indicator: bool,
}

/// The flags of a version 2.3 frame header, as that version lays them out.
#[derive(Debug, Clone, Copy, PartialEq, Eq, Structural)]
pub struct ID3FrameHeaderFlagsV3 {
    pub tag_alter_preserved: bool,
    pub file_alter_preserved: bool,
    pub read_only: bool,
    pub compressed: bool,
    pub encrypted: bool,
    pub grouping: bool,
}

impl ID3FrameHeaderFlags {
    /// The flags of a version 2.4 flags word: bits 14, 13, 12, 6, 3, 2, 1
    /// and 0.
    pub open spec fn spec_from_v4(w: u16) -> ID3FrameHeaderFlags {
        ID3FrameHeaderFlags {
            tag_alter_preserved: w & 0x4000 != 0,
            file_alter_preserved: w & 0x2000 != 0,
            read_only: w & 0x1000 != 0,
            grouping: w & 0x0040 != 0,
            compressed: w & 0x0008 != 0,
            encrypted: w & 0x0004 != 0,
            unsynchronisation: w & 0x0002 != 0,
            data_length_indicator: w & 0x0001 != 0,
        }
    }

    /// The flags of a version 2.3 flags word: bits 15, 14, 13, 5, 7 and 6
    /// stand for the flags that version 2.4 keeps in bits 14, 13, 12, 6, 3
    /// and 2; version 2.3 has no unsynchronisation or data length indicator
    /// flag.
    pub open spec fn spec_from_v3(w: u16) -> ID3FrameHeaderFlags {
        ID3FrameHeaderFlags {
            tag_alter_preserved: w & 0x8000 != 0,
            file_alter_preserved: w & 0x4000 != 0,
            read_only: w & 0x2000 != 0,
            grouping: w & 0x0020 != 0,
            compressed: w & 0x0080 != 0,
            encrypted: w & 0x0040 != 0,
            unsynchronisation: false,
            data_length_indicator: false,
        }
    }

    /// Reads a version 2.4 flags word, ignoring unknown bits.
    pub fn from_bits_truncate(w: u16) -> (r: ID3FrameHeaderFlags)
        ensures
            r == ID3FrameHeaderFlags::spec_from_v4(w),
    {
        ID3FrameHeaderFlags {
            tag_alter_preserved: w & 0x4000 != 0,
            file_alter_preserved: w & 0x2000 != 0,
            read_only: w & 0x1000 != 0,
            grouping: w & 0x0040 != 0,
            compressed: w & 0x0008 != 0,
            encrypted: w & 0x0004 != 0,
            unsynchronisation: w & 0x0002 != 0,
            data_length_indicator: w & 0x0001 != 0,
        }
    }
}

impl ID3FrameHeaderFlagsV3 {
    /// Reads a version 2.3 flags word, ignoring unknown bits.
    pub fn from_bits_truncate(w: u16) -> (r: ID3FrameHeaderFlagsV3)
        ensures
            r.into_flags_spec() == ID3FrameHeaderFlags::spec_from_v3(w),
    {
        ID3FrameHeaderFlagsV3 {
            tag_alter_preserved: w & 0x8000 != 0,
            file_alter_preserved: w & 0x4000 != 0,
            read_only: w & 0x2000 != 0,
            compressed: w & 0x0080 != 0,
            encrypted: w & 0x0040 != 0,
            grouping: w & 0x0020 != 0,
        }
    }

    /// The version-independent flags these stand for.
    pub open spec fn into_flags_spec(self) -> ID3FrameHeaderFlags {
        ID3FrameHeaderFlags {
            tag_alter_preserved: self.tag_alter_preserved,
            file_alter_preserved: self.file_alter_preserved,
            read_only: self.read_only,
            grouping: self.grouping,
            compressed: self.compressed,
            encrypted: self.encrypted,
            unsynchronisation: false,
            data_length_indicator: false,
        }
    }

    /// The version-independent set that these flags stand for.
    pub fn into_flags(self) -> (r: ID3FrameHeaderFlags)
        ensures
            r == self.into_flags_spec(),
    {
        ID3FrameHeaderFlags {
            tag_alter_preserved: self.tag_alter_preserved,
            file_alter_preserved: self.file_alter_preserved,
            read_only: self.read_only,
            grouping: self.grouping,
            compressed: self.compressed,
            encrypted: self.encrypted,
            unsynchronisation: false,
            data_length_indicator: false,
        }
    }
}

/// The compressed flag sits at bit 7 of a version 2.3 flags word and at bit 3
/// of a version 2.4 one: both give the same `compressed` flag, and so
/// do the encrypted flag's bits 6 and 2.
pub proof fn lemma_compressed_flag_same_in_both_layouts(w3: u16, w4: u16)
    ensures
        ID3FrameHeaderFlags::spec_from_v3(w3).compressed == (w3 & 0x0080 != 0),
        ID3FrameHeaderFlags::spec_from_v4(w4).compressed == (w4 & 0x0008 != 0),
        (w3 & 0x0080 != 0) && (w4 & 0x0008 != 0) ==> ID3FrameHeaderFlags::spec_from_v3(
            w3,
        ).compressed && ID3FrameHeaderFlags::spec_from_v4(w4).compressed,
        ID3FrameHeaderFlags::spec_from_v3(w3).encrypted == (w3 & 0x0040 != 0),
        ID3FrameHeaderFlags::spec_from_v4(w4).encrypted == (w4 & 0x0004 != 0),
        ID3FrameHeaderFlags::spec_from_v3(0x0080) == ID3FrameHeaderFlags::spec_from_v4(0x0008),
{
    assert(0x0080u16 & 0x8000 == 0 && 0x0080u16 & 0x4000 == 0 && 0x0080u16 & 0x2000 == 0
        && 0x0080u16 & 0x0020 == 0 && 0x0080u16 & 0x0080 != 0 && 0x0080u16 & 0x0040 == 0)
        by (bit_vector);
    assert(0x0008u16 & 0x4000 == 0 && 0x0008u16 & 0x2000 == 0 && 0x0008u16 & 0x1000 == 0
        && 0x0008u16 & 0x0040 == 0 && 0x0008u16 & 0x0008 != 0 && 0x0008u16 & 0x0004 == 0
        && 0x0008u16 & 0x0002 == 0 && 0x0008u16 & 0x0001 == 0) by (bit_vector);
}

} // verus!
