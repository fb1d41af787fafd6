use vstd::prelude::*;
use vstd::string::StrSliceExecFns;

use crate::error::DecodeError;
use crate::flags::{ID3FrameHeaderFlags, ID3FrameHeaderFlagsV3};
use crate::reader::{
    be_u16, be_u32, bytes_at, remaining, syncsafe_u32, ByteReader, SeekFrom,
};
use crate::text::{decode_bytes, decode_text, text_frame_text, utf8_lossy};

verus! {

/// How frame headers are laid out, chosen once per tag from its major
/// version: version 4 uses the 2.4 layout, every other version the 2.3 one.
#[derive(Debug, Clone, Copy, PartialEq, Eq, Structural)]
pub enum FrameLayout {
    /// Plain big-endian frame sizes and the 2.3 flag bits.
    V23,
    /// Syncsafe frame sizes and the 2.4 flag bits.
    V24,
}

impl FrameLayout {
    /// The layout of frames in a tag of major version `major`.
    pub open spec fn spec_from_major(major: u8) -> FrameLayout {
        if major == 4 {
            FrameLayout::V24
        } else {
            FrameLayout::V23
        }
    }

    /// The layout that frames of a tag of major version `major` use.
    pub fn from_major(major: u8) -> (r: FrameLayout)
        ensures
            r == FrameLayout::spec_from_major(major),
    {
        if major == 4 {
            FrameLayout::V24
        } else {
            FrameLayout::V23
        }
    }
}

/// What a frame header holds.
pub struct FrameHeaderView {
    pub id: Seq<char>,
    pub size: u32,
    pub header_size: u32,
    pub uncompressed_body_size: Option<u32>,
    pub grouping_id: Option<u8>,
    pub flags: ID3FrameHeaderFlags,
}

/// What a frame holds.
pub enum FrameView {
    Text { header: FrameHeaderView, text: Seq<char> },
    Unknown { header: FrameHeaderView, body: Seq<u8> },
}

impl FrameView {
    /// The frame's header.
    pub open spec fn header(self) -> FrameHeaderView {
        match self {
            FrameView::Text { header, .. } => header,
            FrameView::Unknown { header, .. } => header,
        }
    }
}

/// Whether a frame with identifier `id` is a text frame: its identifier starts
/// with `T` and is not `TXXX`.
pub open spec fn is_text_id(id: Seq<char>) -> bool {
    id.len() > 0 && id[0] == 'T' && id != "TXXX"@
}

/// The size field of a frame header at `p`: syncsafe in the 2.4 layout, plain
/// big-endian in the 2.3 one.
pub open spec fn frame_size_at(d: Seq<u8>, p: int, layout: FrameLayout) -> int {
    match layout {
        FrameLayout::V24 => syncsafe_u32(d[p + 4], d[p + 5], d[p + 6], d[p + 7]),
        FrameLayout::V23 => be_u32(d[p + 4], d[p + 5], d[p + 6], d[p + 7]),
    }
}

/// The flags of a frame header at `p`, read by the layout's bit positions.
pub open spec fn frame_flags_at(d: Seq<u8>, p: int, layout: FrameLayout) -> ID3FrameHeaderFlags {
    let w = be_u16(d[p + 8], d[p + 9]) as u16;
    match layout {
        FrameLayout::V24 => ID3FrameHeaderFlags::spec_from_v4(w),
        FrameLayout::V23 => ID3FrameHeaderFlags::spec_from_v3(w),
    }
}

/// The frame header that starts at `p` in `d`, with the position after it;
/// `None` where its first byte is zero, which marks the padding after the
/// last frame.
pub open spec fn frame_header_at(d: Seq<u8>, p: int, layout: FrameLayout) -> Result<
    Option<(FrameHeaderView, int)>,
    DecodeError,
> {
    if remaining(d, p) < 4 {
        Err(DecodeError::TruncatedInput)
    } else if d[p] == 0 {
        Ok(None)
    } else if remaining(d, p) < 10 {
        Err(DecodeError::TruncatedInput)
    } else {
        let flags = frame_flags_at(d, p, layout);
        let g = if flags.grouping { 1int } else { 0int };
        let l = if flags.data_length_indicator { 4int } else { 0int };
        if remaining(d, p) < 10 + g + l {
            Err(DecodeError::TruncatedInput)
        } else if flags.compressed || flags.encrypted {
            Err(DecodeError::UnsupportedFeature)
        } else {
            let q = p + 10 + g;
            let header = FrameHeaderView {
                id: utf8_lossy(bytes_at(d, p, 4)),
                size: frame_size_at(d, p, layout) as u32,
                header_size: (10 + g + l) as u32,
                uncompressed_body_size: if flags.data_length_indicator {
                    Some(syncsafe_u32(d[q], d[q + 1], d[q + 2], d[q + 3]) as u32)
                } else {
                    None
                },
                grouping_id: if flags.grouping { Some(d[p + 10]) } else { None },
                flags,
            };
            Ok(Some((header, p + 10 + g + l)))
        }
    }
}

/// The frame that starts at `p` in `d`, with the position after it; `None`
/// where the padding after the last frame starts at `p`.
pub open spec fn frame_at(d: Seq<u8>, p: int, layout: FrameLayout) -> Result<
    Option<(FrameView, int)>,
    DecodeError,
> {
    match frame_header_at(d, p, layout) {
        Err(e) => Err(e),
        Ok(None) => Ok(None),
        Ok(Some((h, q))) => if remaining(d, q) < h.size {
            Err(DecodeError::TruncatedInput)
        } else {
            let body = bytes_at(d, q, h.size as int);
            let f = if is_text_id(h.id) {
                FrameView::Text { header: h, text: text_frame_text(body) }
            } else {
                FrameView::Unknown { header: h, body }
            };
            Ok(Some((f, q + h.size)))
        },
    }
}

/// The header of one frame.
#[derive(Debug)]
pub struct ID3FrameHeader {
    pub id: String,
    pub size: u32,
    pub header_size: u32,
    pub uncompressed_body_size: Option<u32>,
    pub grouping_id: Option<u8>,
    pub flags: ID3FrameHeaderFlags,
}

impl View for ID3FrameHeader {
    type V = FrameHeaderView;

    open spec fn view(&self) -> FrameHeaderView {
        FrameHeaderView {
            id: self.id@,
            size: self.size,
            header_size: self.header_size,
            uncompressed_body_size: self.uncompressed_body_size,
            grouping_id: self.grouping_id,
            flags: self.flags,
        }
    }
}

impl ID3FrameHeader {
    /// Decodes the frame header at the cursor. Where its first byte is zero,
    /// the padding after the last frame has been reached: the cursor is left
    /// on that byte and `None` is returned.
    pub fn new_from_byte_reader(reader: &mut ByteReader, layout: FrameLayout) -> (r: Result<
        Option<ID3FrameHeader>,
        DecodeError,
    >)
        ensures
            final(reader).data@ == old(reader).data@,
            match frame_header_at(old(reader).data@, old(reader).pos as int, layout) {
                Ok(Some((h, q))) => r is Ok && r->Ok_0 is Some && r->Ok_0->Some_0@ == h
                    && final(reader).pos == q,
                Ok(None) => r is Ok && r->Ok_0 is None && final(reader).pos == old(reader).pos,
                Err(e) => r == Err::<Option<ID3FrameHeader>, DecodeError>(e),
            },
    {
        let ghost d = reader.data@;
        let ghost p = reader.pos as int;
        let raw_id = reader.read_bytes(4)?;
        if raw_id[0] == 0 {
            reader.seek(SeekFrom::Current(-4))?;
            return Ok(None);
        }
        let id = decode_bytes(&raw_id);
        let size = match layout {
            FrameLayout::V24 => reader.read_u32_syncsafe()?,
            FrameLayout::V23 => reader.read_u32()?,
        };
        let word = reader.read_u16()?;
        let flags = match layout {
            FrameLayout::V24 => ID3FrameHeaderFlags::from_bits_truncate(word),
            FrameLayout::V23 => ID3FrameHeaderFlagsV3::from_bits_truncate(word).into_flags(),
        };
        assert(flags == frame_flags_at(d, p, layout));
        let mut header_size: u32 = 10;
        let mut grouping_id: Option<u8> = None;
        if flags.grouping {
            grouping_id = Some(reader.read_u8()?);
            header_size = header_size + 1;
        }
        let mut uncompressed_body_size: Option<u32> = None;
        if flags.data_length_indicator {
            uncompressed_body_size = Some(reader.read_u32_syncsafe()?);
            header_size = header_size + 4;
        }
        if flags.compressed || flags.encrypted {
            return Err(DecodeError::UnsupportedFeature);
        }
        Ok(Some(ID3FrameHeader { id, size, header_size, uncompressed_body_size, grouping_id, flags }))
    }

    /// Whether this header belongs to a text frame.
    pub fn is_text_frame(&self) -> (r: bool)
        ensures
            r == is_text_id(self.id@),
    {
        let txxx = "TXXX".to_owned();
        self.id.unicode_len() > 0 && self.id.as_str().get_char(0) == 'T' && !(self.id == txxx)
    }
}

/// One frame: a text frame with its decoded text, or another frame with its
/// body kept as it is.
#[derive(Debug)]
pub enum ID3Frame {
    Text { header: ID3FrameHeader, text: String },
    Unknown { header: ID3FrameHeader, body: Vec<u8> },
}

impl View for ID3Frame {
    type V = FrameView;

    open spec fn view(&self) -> FrameView {
        match self {
            ID3Frame::Text { header, text } => FrameView::Text { header: header@, text: text@ },
            ID3Frame::Unknown { header, body } => FrameView::Unknown {
                header: header@,
                body: body@,
            },
        }
    }
}

impl ID3Frame {
    /// Decodes the frame at the cursor, header and body; `None`, with the
    /// cursor left where it was, where the padding after the last frame starts
    /// there.
    pub fn new_from_byte_reader(reader: &mut ByteReader, layout: FrameLayout) -> (r: Result<
        Option<ID3Frame>,
        DecodeError,
    >)
        ensures
            final(reader).data@ == old(reader).data@,
            match frame_at(old(reader).data@, old(reader).pos as int, layout) {
                Ok(Some((f, q))) => r is Ok && r->Ok_0 is Some && r->Ok_0->Some_0@ == f
                    && final(reader).pos == q,
                Ok(None) => r is Ok && r->Ok_0 is None && final(reader).pos == old(reader).pos,
                Err(e) => r == Err::<Option<ID3Frame>, DecodeError>(e),
            },
    {
        let header = ID3FrameHeader::new_from_byte_reader(reader, layout)?;
        match header {
            Some(header) => {
                let body = reader.read_bytes(header.size as usize)?;
                if header.is_text_frame() {
                    let text = Self::text_frame_content(body);
                    Ok(Some(ID3Frame::Text { header, text }))
                } else {
                    Ok(Some(ID3Frame::Unknown { header, body }))
                }
            },
            None => Ok(None),
        }
    }

    /// The frame's header.
    pub fn get_header(&self) -> (r: &ID3FrameHeader)
        ensures
            r@ == self@.header(),
    {
        match self {
            ID3Frame::Text { header, .. } => header,
            ID3Frame::Unknown { header, .. } => header,
        }
    }

    /// The text that a text frame's body holds.
    pub fn text_frame_content(content: Vec<u8>) -> (r: String)
        ensures
            r@ == text_frame_text(content@),
    {
        decode_text(&content)
    }
}

} // verus!
