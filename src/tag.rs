use vstd::prelude::*;

use crate::error::DecodeError;
use crate::flags::ID3HeaderFlags;
use crate::frame::{frame_at, frame_header_at, frame_size_at, FrameLayout, FrameView, ID3Frame};
use crate::reader::{be_u32, bytes_at, remaining, syncsafe_u32, ByteReader};

verus! {

/// The frames that follow one another from `p` in `d` up to the padding, with
/// the position of the padding.
pub open spec fn frames_at(d: Seq<u8>, p: int, layout: FrameLayout) -> Result<
    (Seq<FrameView>, int),
    DecodeError,
>
    decreases d.len() - p,
{
    match frame_at(d, p, layout) {
        Err(e) => Err(e),
        Ok(None) => Ok((Seq::empty(), p)),
        Ok(Some((f, q))) => if p < q <= d.len() {
            match frames_at(d, q, layout) {
                Err(e) => Err(e),
                Ok((fs, r)) => Ok((seq![f] + fs, r)),
            }
        } else {
            Err(DecodeError::TruncatedInput)
        },
    }
}

/// Each frame takes at least its ten header bytes and lies within the data.
pub proof fn lemma_frame_at_advances(d: Seq<u8>, p: int, layout: FrameLayout)
    ensures
        frame_at(d, p, layout) matches Ok(Some((_, q))) ==> p + 10 <= q <= d.len(),
{
}

/// The frame size field is read as a syncsafe integer in tags of major
/// version 4 and as a plain big-endian integer in all others.
pub proof fn lemma_frame_size_by_version(d: Seq<u8>, p: int, major: u8)
    ensures
        frame_header_at(d, p, FrameLayout::spec_from_major(major)) matches Ok(Some((h, _))) ==> {
            &&& major == 4 ==> h.size == syncsafe_u32(d[p + 4], d[p + 5], d[p + 6], d[p + 7])
            &&& major != 4 ==> h.size == be_u32(d[p + 4], d[p + 5], d[p + 6], d[p + 7])
        },
{
}

/// A frame header whose first byte is zero ends the frames: none are decoded
/// from there, and the sequence ends at that byte.
pub proof fn lemma_padding_ends_frames(d: Seq<u8>, p: int, layout: FrameLayout)
    requires
        remaining(d, p) >= 4,
        d[p] == 0,
    ensures
        frames_at(d, p, layout) == Ok::<(Seq<FrameView>, int), DecodeError>((Seq::empty(), p)),
{
}

/// The frames decoded before, joined in front of those decoded after.
pub open spec fn prepend_frames(
    before: Seq<FrameView>,
    after: Result<(Seq<FrameView>, int), DecodeError>,
) -> Result<(Seq<FrameView>, int), DecodeError> {
    match after {
        Err(e) => Err(e),
        Ok((fs, r)) => Ok((before + fs, r)),
    }
}

/// Whether frame `f` has the identifier `name`.
pub open spec fn has_id(f: FrameView, name: Seq<char>) -> bool {
    f.header().id == name
}

/// The frames of a tag, in the order they appear.
#[derive(Debug)]
pub struct ID3Body {
    pub frames: Vec<ID3Frame>,
}

impl View for ID3Body {
    type V = Seq<FrameView>;

    open spec fn view(&self) -> Seq<FrameView> {
        self.frames@.map_values(|f: ID3Frame| f@)
    }
}

impl ID3Body {
    /// A body without frames.
    pub fn new() -> (r: ID3Body)
        ensures
            r@ == Seq::<FrameView>::empty(),
    {
        let r = ID3Body { frames: Vec::new() };
        assert(r@ =~= Seq::<FrameView>::empty());
        r
    }

    /// Decodes frames from the cursor until the padding is reached, which is
    /// left unread.
    pub fn new_from_byte_reader(reader: &mut ByteReader, layout: FrameLayout) -> (r: Result<
        ID3Body,
        DecodeError,
    >)
        ensures
            final(reader).data@ == old(reader).data@,
            match frames_at(old(reader).data@, old(reader).pos as int, layout) {
                Ok((fs, q)) => r is Ok && r->Ok_0@ == fs && final(reader).pos == q,
                Err(e) => r is Err && r->Err_0 == e,
            },
    {
        let ghost d = reader.data@;
        let ghost p0 = reader.pos as int;
        let mut frames: Vec<ID3Frame> = Vec::new();
        assert(frames@.map_values(|f: ID3Frame| f@) + Seq::<FrameView>::empty() =~= Seq::<
            FrameView,
        >::empty());
        loop
            invariant
                reader.data@ == d,
                d == old(reader).data@,
                p0 == old(reader).pos,
                frames_at(d, p0, layout) == prepend_frames(
                    frames@.map_values(|f: ID3Frame| f@),
                    frames_at(d, reader.pos as int, layout),
                ),
            decreases remaining(d, reader.pos as int),
        {
            let ghost p = reader.pos as int;
            let ghost before = frames@.map_values(|f: ID3Frame| f@);
            proof {
                lemma_frame_at_advances(d, p, layout);
            }
            let next = ID3Frame::new_from_byte_reader(reader, layout);
            match next {
                Err(e) => {
                    return Err(e);
                },
                Ok(None) => {
                    assert(before + Seq::<FrameView>::empty() =~= before);
                    let body = ID3Body { frames };
                    return Ok(body);
                },
                Ok(Some(frame)) => {
                    let ghost fv = frame@;
                    frames.push(frame);
                    proof {
                        let q = reader.pos as int;
                        assert(frames@.map_values(|f: ID3Frame| f@) =~= before.push(fv));
                        match frames_at(d, q, layout) {
                            Err(_) => {},
                            Ok((fs, r)) => {
                                assert(before + (seq![fv] + fs) =~= before.push(fv) + fs);
                            },
                        }
                    }
                },
            }
        }
    }

    /// The first frame, in the order they appear, whose identifier is `name`.
    pub fn find_frame_by_name(&self, name: &str) -> (r: Option<&ID3Frame>)
        ensures
            match r {
                Some(f) => exists|i: int|
                    0 <= i < self.frames@.len() && *f == self.frames@[i] && has_id(
                        self@[i],
                        name@,
                    ) && forall|j: int| 0 <= j < i ==> !has_id(#[trigger] self@[j], name@),
                None => forall|i: int| 0 <= i < self@.len() ==> !has_id(#[trigger] self@[i], name@),
            },
    {
        let wanted = name.to_owned();
        let mut i: usize = 0;
        while i < self.frames.len()
            invariant
                wanted@ == name@,
                i <= self.frames@.len(),
                forall|j: int| 0 <= j < i ==> !has_id(#[trigger] self@[j], name@),
            decreases self.frames@.len() - i,
        {
            let frame = &self.frames[i];
            if frame.get_header().id == wanted {
                return Some(frame);
            }
            i = i + 1;
        }
        None
    }

    /// All frames whose identifier is `name`, in the order they appear.
    pub fn find_frames_by_name(&self, name: &str) -> (r: Vec<&ID3Frame>)
        ensures
            r@.map_values(|f: &ID3Frame| f@) == self@.filter(|f: FrameView| has_id(f, name@)),
    {
        let wanted = name.to_owned();
        let mut found: Vec<&ID3Frame> = Vec::new();
        let mut i: usize = 0;
        let ghost pred = |f: FrameView| has_id(f, name@);
        assert(self@.take(0).filter(pred) =~= Seq::<FrameView>::empty()) by {
            reveal(Seq::filter);
        }
        assert(found@.map_values(|f: &ID3Frame| f@) =~= Seq::<FrameView>::empty());
        while i < self.frames.len()
            invariant
                wanted@ == name@,
                pred == (|f: FrameView| has_id(f, name@)),
                i <= self.frames@.len(),
                found@.map_values(|f: &ID3Frame| f@) == self@.take(i as int).filter(pred),
            decreases self.frames@.len() - i,
        {
            let frame = &self.frames[i];
            let ghost before = found@.map_values(|f: &ID3Frame| f@);
            assert(self@.take(i + 1).drop_last() =~= self@.take(i as int));
            assert(self@.take(i + 1).last() == frame@);
            reveal(Seq::filter);
            if frame.get_header().id == wanted {
                found.push(frame);
                assert(found@.map_values(|f: &ID3Frame| f@) =~= before.push(frame@));
            } else {
                assert(found@.map_values(|f: &ID3Frame| f@) =~= before);
            }
            i = i + 1;
        }
        assert(self@.take(self.frames@.len() as int) =~= self@);
        found
    }
}

/// The ten-byte tag header that starts at `p` in `d`, with the position after
/// it. The tag must open with the marker `ID3`.
pub open spec fn header_at(d: Seq<u8>, p: int) -> Result<(ID3Header, int), DecodeError> {
    if remaining(d, p) < 3 {
        Err(DecodeError::TruncatedInput)
    } else if bytes_at(d, p, 3) != seq![0x49u8, 0x44u8, 0x33u8] {
        Err(DecodeError::InvalidTagMarker)
    } else if remaining(d, p) < 10 {
        Err(DecodeError::TruncatedInput)
    } else {
        Ok(
            (
                ID3Header {
                    version: (d[p + 3], d[p + 4]),
                    flags: ID3HeaderFlags::spec_from_bits(d[p + 5]),
                    size: syncsafe_u32(d[p + 6], d[p + 7], d[p + 8], d[p + 9]) as u32,
                },
                p + 10,
            ),
        )
    }
}

/// The position where the frames start, after the header at `p` and the
/// extended header where the header announces one.
pub open spec fn frames_start(d: Seq<u8>, h: ID3Header, q: int) -> Result<int, DecodeError> {
    if !h.flags.extended_header {
        Ok(q)
    } else if remaining(d, q) < 4 {
        Err(DecodeError::TruncatedInput)
    } else {
        Ok(q + 4)
    }
}

/// The tag that starts at `p` in `d`: its header and its frames, with the
/// position of the padding after them.
pub open spec fn tag_at(d: Seq<u8>, p: int) -> Result<(ID3Header, Seq<FrameView>, int), DecodeError> {
    match header_at(d, p) {
        Err(e) => Err(e),
        Ok((h, q)) => match frames_start(d, h, q) {
            Err(e) => Err(e),
            Ok(s) => match frames_at(d, s, FrameLayout::spec_from_major(h.version.0)) {
                Err(e) => Err(e),
                Ok((fs, r)) => Ok((h, fs, r)),
            },
        },
    }
}

/// The header of a tag.
#[derive(Debug, Clone, Copy)]
pub struct ID3Header {
    /// The major and minor version.
    pub version: (u8, u8),
    pub flags: ID3HeaderFlags,
    /// The size of the tag after its ten-byte header.
    pub size: u32,
}

impl ID3Header {
    /// The header of an empty version 2.3.0 tag.
    pub fn new() -> (r: ID3Header)
        ensures
            r.version == (3u8, 0u8),
            r.flags == ID3HeaderFlags::spec_from_bits(0),
            r.size == 0,
    {
        ID3Header { version: (3, 0), flags: ID3HeaderFlags::empty(), size: 0 }
    }

    /// Decodes the tag header at the cursor.
    pub fn new_from_byte_reader(reader: &mut ByteReader) -> (r: Result<ID3Header, DecodeError>)
        ensures
            final(reader).data@ == old(reader).data@,
            match header_at(old(reader).data@, old(reader).pos as int) {
                Ok((h, q)) => r == Ok::<ID3Header, DecodeError>(h) && final(reader).pos == q,
                Err(e) => r == Err::<ID3Header, DecodeError>(e),
            },
    {
        let ghost d = reader.data@;
        let ghost p = reader.pos as int;
        let marker = reader.read_bytes(3)?;
        if !(marker[0] == 0x49 && marker[1] == 0x44 && marker[2] == 0x33) {
            assert(bytes_at(d, p, 3) != seq![0x49u8, 0x44u8, 0x33u8]) by {
                if marker[0] != 0x49 {
                    assert(bytes_at(d, p, 3)[0] != seq![0x49u8, 0x44u8, 0x33u8][0]);
                } else if marker[1] != 0x44 {
                    assert(bytes_at(d, p, 3)[1] != seq![0x49u8, 0x44u8, 0x33u8][1]);
                } else {
                    assert(bytes_at(d, p, 3)[2] != seq![0x49u8, 0x44u8, 0x33u8][2]);
                }
            }
            return Err(DecodeError::InvalidTagMarker);
        }
        assert(bytes_at(d, p, 3) =~= seq![0x49u8, 0x44u8, 0x33u8]);
        let major = reader.read_u8()?;
        let minor = reader.read_u8()?;
        let flags = ID3HeaderFlags::from_bits_truncate(reader.read_u8()?);
        let size = reader.read_u32_syncsafe()?;
        Ok(ID3Header { version: (major, minor), flags, size })
    }
}

/// The extended header of a tag; only its size is read.
#[derive(Debug, Clone, Copy, PartialEq, Eq, Structural)]
pub struct ID3ExtendedHeader {
    pub size: u32,
}

impl ID3ExtendedHeader {
    /// Reads the extended header's syncsafe size at the cursor.
    pub fn new_from_byte_reader(reader: &mut ByteReader) -> (r: Result<ID3ExtendedHeader, DecodeError>)
        ensures
            final(reader).data@ == old(reader).data@,
            ({
                let d = old(reader).data@;
                let p = old(reader).pos as int;
                if remaining(d, p) >= 4 {
                    r == Ok::<ID3ExtendedHeader, DecodeError>(
                        ID3ExtendedHeader {
                            size: syncsafe_u32(d[p], d[p + 1], d[p + 2], d[p + 3]) as u32,
                        },
                    ) && final(reader).pos == p + 4
                } else {
                    r == Err::<ID3ExtendedHeader, DecodeError>(DecodeError::TruncatedInput)
                }
            }),
    {
        let size = reader.read_u32_syncsafe()?;
        Ok(ID3ExtendedHeader { size })
    }
}

/// A decoded tag: its header and its frames.
#[derive(Debug)]
pub struct ID3 {
    pub header: ID3Header,
    pub body: ID3Body,
}

impl ID3 {
    /// An empty version 2.3.0 tag.
    pub fn new() -> (r: ID3)
        ensures
            r.header.version == (3u8, 0u8),
            r.header.flags == ID3HeaderFlags::spec_from_bits(0),
            r.header.size == 0,
            r.body@ == Seq::<FrameView>::empty(),
    {
        ID3 { header: ID3Header::new(), body: ID3Body::new() }
    }

    /// Decodes the tag at the cursor: its header, the extended header where
    /// the header announces one, and the frames up to the padding, laid out as
    /// the tag's major version says.
    pub fn new_from_byte_reader(reader: &mut ByteReader) -> (r: Result<ID3, DecodeError>)
        ensures
            final(reader).data@ == old(reader).data@,
            match tag_at(old(reader).data@, old(reader).pos as int) {
                Ok((h, fs, q)) => r is Ok && r->Ok_0.header == h && r->Ok_0.body@ == fs
                    && final(reader).pos == q,
                Err(e) => r is Err && r->Err_0 == e,
            },
    {
        let header = ID3Header::new_from_byte_reader(reader)?;
        if header.flags.extended_header {
            let _extended = ID3ExtendedHeader::new_from_byte_reader(reader)?;
        }
        let layout = FrameLayout::from_major(header.version.0);
        let body = ID3Body::new_from_byte_reader(reader, layout)?;
        Ok(ID3 { header, body })
    }

    /// The first frame, in the order they appear, whose identifier is `name`.
    pub fn find_frame_by_name(&self, name: &str) -> (r: Option<&ID3Frame>)
        ensures
            match r {
                Some(f) => exists|i: int|
                    0 <= i < self.body.frames@.len() && *f == self.body.frames@[i] && has_id(
                        self.body@[i],
                        name@,
                    ) && forall|j: int| 0 <= j < i ==> !has_id(#[trigger] self.body@[j], name@),
                None => forall|i: int|
                    0 <= i < self.body@.len() ==> !has_id(#[trigger] self.body@[i], name@),
            },
    {
        self.body.find_frame_by_name(name)
    }

    /// All frames whose identifier is `name`, in the order they appear.
    pub fn find_frames_by_name(&self, name: &str) -> (r: Vec<&ID3Frame>)
        ensures
            r@.map_values(|f: &ID3Frame| f@) == self.body@.filter(|f: FrameView| has_id(f, name@)),
    {
        self.body.find_frames_by_name(name)
    }
}

} // verus!
