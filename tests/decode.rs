use id3tag::{
    decode_bytes, encode_syncsafe, ByteReader, DecodeError, FrameLayout, ID3Body, ID3Frame,
    ID3FrameHeader, ID3FrameHeaderFlags, ID3FrameHeaderFlagsV3, ID3HeaderFlags, SeekFrom, ID3,
};

fn tag_header(major: u8, flags: u8, size: u32) -> Vec<u8> {
    let mut v = b"ID3".to_vec();
    v.push(major);
    v.push(0);
    v.push(flags);
    v.extend(encode_syncsafe(size));
    v
}

fn frame(id: &[u8], size_field: [u8; 4], flags: [u8; 2], body: &[u8]) -> Vec<u8> {
    let mut v = id.to_vec();
    v.extend_from_slice(&size_field);
    v.extend_from_slice(&flags);
    v.extend_from_slice(body);
    v
}

fn text_frame_v3(id: &[u8], text: &str) -> Vec<u8> {
    let mut body = vec![0u8];
    body.extend_from_slice(text.as_bytes());
    body.push(0);
    frame(id, (body.len() as u32).to_be_bytes(), [0, 0], &body)
}

fn text_of(f: &ID3Frame) -> String {
    match f {
        ID3Frame::Text { text, .. } => text.clone(),
        ID3Frame::Unknown { .. } => panic!("not a text frame"),
    }
}

#[test]
fn end_to_end_minimal_tag() {
    let mut data = tag_header(3, 0, 30);
    let mut body = vec![0u8];
    body.extend_from_slice(b"Hello");
    body.push(0);
    body.resize(12, 0);
    data.extend(frame(b"TIT2", 12u32.to_be_bytes(), [0, 0], &body));
    data.resize(10 + 30, 0);
    let mut reader = ByteReader::new(data);
    let tag = ID3::new_from_byte_reader(&mut reader).unwrap();
    assert_eq!(tag.header.version, (3, 0));
    assert_eq!(tag.header.size, 30);
    assert!(!tag.header.flags.extended_header);
    let f = tag.find_frame_by_name("TIT2").unwrap();
    assert!(matches!(f, ID3Frame::Text { .. }));
    assert_eq!(text_of(f), "Hello");
    assert_eq!(f.get_header().size, 12);
    assert_eq!(f.get_header().header_size, 10);
    assert_eq!(tag.body.frames.len(), 1);
    // the cursor stops on the padding
    assert_eq!(reader.pos, 32);
}

#[test]
fn lookup_all_and_first() {
    let mut frames = Vec::new();
    frames.extend(frame(b"TXXX", 3u32.to_be_bytes(), [0, 0], &[0, b'a', 0]));
    frames.extend(text_frame_v3(b"TIT2", "Title"));
    frames.extend(frame(b"TXXX", 3u32.to_be_bytes(), [0, 0], &[0, b'b', 0]));
    frames.extend(frame(b"TXXX", 3u32.to_be_bytes(), [0, 0], &[0, b'c', 0]));
    let mut data = tag_header(3, 0, frames.len() as u32 + 10);
    data.extend(frames);
    data.extend([0u8; 10]);
    let tag = ID3::new_from_byte_reader(&mut ByteReader::new(data)).unwrap();
    let all = tag.find_frames_by_name("TXXX");
    assert_eq!(all.len(), 3);
    let bodies: Vec<Vec<u8>> = all
        .iter()
        .map(|f| match f {
            ID3Frame::Unknown { body, .. } => body.clone(),
            ID3Frame::Text { .. } => panic!("TXXX is not a text frame"),
        })
        .collect();
    assert_eq!(bodies, vec![vec![0, b'a', 0], vec![0, b'b', 0], vec![0, b'c', 0]]);
    assert!(tag.find_frame_by_name("MISSING").is_none());
    assert!(tag.find_frames_by_name("MISSING").is_empty());
    assert!(tag.find_frame_by_name("txxx").is_none());
    let first = tag.find_frame_by_name("TXXX").unwrap();
    assert!(matches!(first, ID3Frame::Unknown { body, .. } if body == &vec![0, b'a', 0]));
    assert_eq!(text_of(tag.find_frame_by_name("TIT2").unwrap()), "Title");
}

#[test]
fn frame_size_plain_in_v3() {
    let body = vec![7u8; 300];
    let mut data = tag_header(3, 0, 320);
    data.extend(frame(b"APIC", 300u32.to_be_bytes(), [0, 0], &body));
    data.extend([0u8; 10]);
    let tag = ID3::new_from_byte_reader(&mut ByteReader::new(data)).unwrap();
    let f = tag.find_frame_by_name("APIC").unwrap();
    assert_eq!(f.get_header().size, 300);
    assert!(matches!(f, ID3Frame::Unknown { body, .. } if body.len() == 300));
}

#[test]
fn frame_size_syncsafe_in_v4() {
    let body = vec![7u8; 300];
    let mut size = [0u8; 4];
    size.copy_from_slice(&encode_syncsafe(300));
    assert_eq!(size, [0, 0, 2, 44]);
    let mut data = tag_header(4, 0, 320);
    data.extend(frame(b"APIC", size, [0, 0], &body));
    data.extend([0u8; 10]);
    let tag = ID3::new_from_byte_reader(&mut ByteReader::new(data)).unwrap();
    assert_eq!(tag.find_frame_by_name("APIC").unwrap().get_header().size, 300);
}

#[test]
fn frame_size_wrong_way_is_detected() {
    // syncsafe 300 in a v2.3 tag reads as 556: more than the data holds
    let body = vec![7u8; 300];
    let mut data = tag_header(3, 0, 320);
    data.extend(frame(b"APIC", [0, 0, 2, 44], [0, 0], &body));
    data.extend([0u8; 10]);
    let r = ID3::new_from_byte_reader(&mut ByteReader::new(data));
    assert_eq!(r.err(), Some(DecodeError::TruncatedInput));

    // plain 300 in a v2.4 tag reads as 172: a different body length
    let data = frame(b"APIC", 300u32.to_be_bytes(), [0, 0], &body);
    let mut r = ByteReader::new(data);
    let f = ID3Frame::new_from_byte_reader(&mut r, FrameLayout::V24).unwrap().unwrap();
    assert_eq!(f.get_header().size, 172);
    assert!(matches!(f, ID3Frame::Unknown { body, .. } if body.len() == 172));
    assert_eq!(r.pos, 182);
}

#[test]
fn syncsafe_round_trip() {
    for v in [0u32, 1, 127, 128, 300, 16383, 16384, 0x0FFF_FFFF, 0x0ABC_DEF1] {
        let bytes = encode_syncsafe(v);
        assert_eq!(bytes.len(), 4);
        assert!(bytes.iter().all(|b| b & 0x80 == 0));
        let mut r = ByteReader::new(bytes);
        assert_eq!(r.read_u32_syncsafe(), Ok(v));
        assert_eq!(r.pos, 4);
    }
}

#[test]
fn syncsafe_ignores_top_bits() {
    let mut r = ByteReader::new(vec![0x80, 0x80, 0x81, 0xFF]);
    assert_eq!(r.read_u32_syncsafe(), Ok(0xFF));
}

#[test]
fn plain_integer_reads() {
    let mut r = ByteReader::new(vec![0x12, 0x34, 0x56, 0x78, 0x9A, 0xBC, 0xDE]);
    assert_eq!(r.read_u32(), Ok(0x1234_5678));
    assert_eq!(r.read_u16(), Ok(0x9ABC));
    assert_eq!(r.read_u8(), Ok(0xDE));
    assert_eq!(r.read_u8(), Err(DecodeError::TruncatedInput));
}

#[test]
fn truncated_read_consumes_rest() {
    let mut r = ByteReader::new(vec![1, 2, 3]);
    assert_eq!(r.read_bytes(2), Ok(vec![1, 2]));
    assert_eq!(r.read_bytes(2), Err(DecodeError::TruncatedInput));
    assert_eq!(r.pos, 3);
    assert_eq!(r.read_bytes(0), Ok(vec![]));
}

#[test]
fn seek_moves_and_rejects_before_start() {
    let mut r = ByteReader::new(vec![1, 2, 3, 4]);
    assert_eq!(r.seek(SeekFrom::Start(2)), Ok(2));
    assert_eq!(r.read_u8(), Ok(3));
    assert_eq!(r.seek(SeekFrom::Current(-3)), Ok(0));
    assert_eq!(r.seek(SeekFrom::Current(-1)), Err(DecodeError::SeekOutOfRange));
    assert_eq!(r.pos, 0);
    assert_eq!(r.seek(SeekFrom::Current(10)), Ok(10));
    assert_eq!(r.read_u8(), Err(DecodeError::TruncatedInput));
    assert_eq!(r.pos, 10);
}

#[test]
fn text_with_terminator() {
    let mut body = vec![3u8];
    body.extend_from_slice(b"Abbey Road");
    body.extend([0, 0, 0, 0]);
    assert_eq!(ID3Frame::text_frame_content(body), "Abbey Road");
}

#[test]
fn text_without_terminator() {
    let mut body = vec![0u8];
    body.extend_from_slice(b"Test");
    assert_eq!(ID3Frame::text_frame_content(body), "Test");
}

#[test]
fn text_in_utf16_is_empty() {
    assert_eq!(ID3Frame::text_frame_content(vec![1, 0xFF, 0xFE, b'a', 0]), "");
    assert_eq!(ID3Frame::text_frame_content(vec![2, 0, b'a']), "");
    assert_eq!(ID3Frame::text_frame_content(vec![]), "");
    assert_eq!(ID3Frame::text_frame_content(vec![3]), "");
}

#[test]
fn text_decoding_replaces_invalid_bytes() {
    assert_eq!(ID3Frame::text_frame_content(vec![3, b'a', 0xFF, b'b']), "a\u{FFFD}b");
    assert_eq!(ID3Frame::text_frame_content(vec![3, 0xC3, 0xA9, 0, b'x']), "\u{e9}");
    assert_eq!(decode_bytes(&vec![b'I', b'D', b'3']), "ID3");
}

#[test]
fn padding_stops_frames_and_keeps_cursor() {
    let mut r = ByteReader::new(vec![b'x', 0, 0, 0, 0, 0, 0]);
    r.seek(SeekFrom::Start(1)).unwrap();
    let h = ID3FrameHeader::new_from_byte_reader(&mut r, FrameLayout::V23).unwrap();
    assert!(h.is_none());
    assert_eq!(r.pos, 1);
    assert_eq!(r.read_bytes(4), Ok(vec![0, 0, 0, 0]));

    let mut r = ByteReader::new(vec![0, b'A', b'B', b'C', 9]);
    let f = ID3Frame::new_from_byte_reader(&mut r, FrameLayout::V24).unwrap();
    assert!(f.is_none());
    assert_eq!(r.pos, 0);

    let mut data = text_frame_v3(b"TALB", "Album");
    let start = data.len() as u64;
    data.extend([0u8; 8]);
    let mut r = ByteReader::new(data);
    let body = ID3Body::new_from_byte_reader(&mut r, FrameLayout::V23).unwrap();
    assert_eq!(body.frames.len(), 1);
    assert_eq!(r.pos, start);
    assert_eq!(r.read_bytes(4), Ok(vec![0, 0, 0, 0]));
}

#[test]
fn flag_translation_compressed() {
    let v3 = ID3FrameHeaderFlagsV3::from_bits_truncate(0x0080).into_flags();
    let v4 = ID3FrameHeaderFlags::from_bits_truncate(0x0008);
    assert!(v3.compressed);
    assert!(v4.compressed);
    assert_eq!(v3, v4);
    let v3 = ID3FrameHeaderFlagsV3::from_bits_truncate(0x0040).into_flags();
    let v4 = ID3FrameHeaderFlags::from_bits_truncate(0x0004);
    assert!(v3.encrypted && v4.encrypted && !v3.compressed && !v4.compressed);
}

#[test]
fn flag_translation_all_bits() {
    let v3 = ID3FrameHeaderFlagsV3::from_bits_truncate(0xE0E0).into_flags();
    let v4 = ID3FrameHeaderFlags::from_bits_truncate(0x704C);
    assert_eq!(v3, v4);
    assert!(!v3.unsynchronisation && !v3.data_length_indicator);
    let all4 = ID3FrameHeaderFlags::from_bits_truncate(0xFFFF);
    assert!(all4.unsynchronisation && all4.data_length_indicator && all4.grouping);
    let none = ID3FrameHeaderFlagsV3::from_bits_truncate(0x1F1F).into_flags();
    assert!(!none.grouping && !none.compressed && !none.encrypted && !none.read_only);
}

#[test]
fn compressed_frame_is_unsupported() {
    let mut data = tag_header(3, 0, 30);
    data.extend(frame(b"TIT2", 2u32.to_be_bytes(), [0, 0x80], &[0, b'a']));
    data.extend([0u8; 10]);
    let r = ID3::new_from_byte_reader(&mut ByteReader::new(data));
    assert_eq!(r.err(), Some(DecodeError::UnsupportedFeature));

    let mut data = tag_header(4, 0, 30);
    data.extend(frame(b"TIT2", [0, 0, 0, 2], [0, 0x04], &[0, b'a']));
    data.extend([0u8; 10]);
    let r = ID3::new_from_byte_reader(&mut ByteReader::new(data));
    assert_eq!(r.err(), Some(DecodeError::UnsupportedFeature));
}

#[test]
fn invalid_marker_is_rejected() {
    let mut data = b"XYZ".to_vec();
    data.extend([3, 0, 0, 0, 0, 0, 0]);
    let r = ID3::new_from_byte_reader(&mut ByteReader::new(data));
    assert_eq!(r.err(), Some(DecodeError::InvalidTagMarker));
}

#[test]
fn short_input_is_truncated() {
    let r = ID3::new_from_byte_reader(&mut ByteReader::new(b"ID".to_vec()));
    assert_eq!(r.err(), Some(DecodeError::TruncatedInput));
    let r = ID3::new_from_byte_reader(&mut ByteReader::new(b"ID3\x03\x00".to_vec()));
    assert_eq!(r.err(), Some(DecodeError::TruncatedInput));
    // frames run to the end of the data without padding
    let mut data = tag_header(3, 0, 16);
    data.extend(text_frame_v3(b"TIT2", "Hi"));
    let r = ID3::new_from_byte_reader(&mut ByteReader::new(data));
    assert_eq!(r.err(), Some(DecodeError::TruncatedInput));
}

#[test]
fn extended_header_is_skipped() {
    let mut data = tag_header(3, 0x40, 40);
    data.extend(encode_syncsafe(6));
    data.extend(text_frame_v3(b"TALB", "Album"));
    data.extend([0u8; 10]);
    let tag = ID3::new_from_byte_reader(&mut ByteReader::new(data)).unwrap();
    assert!(tag.header.flags.extended_header);
    assert!(!tag.header.flags.unsynchronisation);
    assert_eq!(text_of(tag.find_frame_by_name("TALB").unwrap()), "Album");
}

#[test]
fn header_flags_bits() {
    let f = ID3HeaderFlags::from_bits_truncate(0xFF);
    assert!(f.unsynchronisation && f.extended_header && f.experimental);
    assert_eq!(f.bits(), 0xE0);
    let f = ID3HeaderFlags::from_bits_truncate(0x1F);
    assert_eq!(f.bits(), 0);
    assert_eq!(ID3HeaderFlags::empty().bits(), 0);
}

#[test]
fn grouping_and_data_length_in_v4() {
    let mut data = tag_header(4, 0, 40);
    let mut f = b"TPE1".to_vec();
    f.extend(encode_syncsafe(3));
    f.extend([0x00, 0x41]);
    f.push(9);
    f.extend(encode_syncsafe(3));
    f.extend([3, b'A', b'B']);
    data.extend(f);
    data.extend([0u8; 10]);
    let tag = ID3::new_from_byte_reader(&mut ByteReader::new(data)).unwrap();
    let fr = tag.find_frame_by_name("TPE1").unwrap();
    let h = fr.get_header();
    assert_eq!(h.grouping_id, Some(9));
    assert_eq!(h.uncompressed_body_size, Some(3));
    assert_eq!(h.header_size, 15);
    assert!(h.flags.grouping && h.flags.data_length_indicator);
    assert_eq!(text_of(fr), "AB");
}

#[test]
fn grouping_in_v3() {
    let mut data = tag_header(3, 0, 40);
    let mut f = b"TIT2".to_vec();
    f.extend(3u32.to_be_bytes());
    f.extend([0x00, 0x20]);
    f.push(5);
    f.extend([0, b'X', b'Y']);
    data.extend(f);
    data.extend([0u8; 10]);
    let tag = ID3::new_from_byte_reader(&mut ByteReader::new(data)).unwrap();
    let h = tag.find_frame_by_name("TIT2").unwrap().get_header();
    assert_eq!(h.grouping_id, Some(5));
    assert_eq!(h.uncompressed_body_size, None);
    assert_eq!(h.header_size, 11);
}

#[test]
fn text_frame_classification() {
    let mut data = tag_header(3, 0, 60);
    data.extend(text_frame_v3(b"TIT2", "t"));
    data.extend(text_frame_v3(b"TXXX", "x"));
    data.extend(text_frame_v3(b"COMM", "c"));
    data.extend([0u8; 10]);
    let tag = ID3::new_from_byte_reader(&mut ByteReader::new(data)).unwrap();
    assert!(tag.find_frame_by_name("TIT2").unwrap().get_header().is_text_frame());
    assert!(!tag.find_frame_by_name("TXXX").unwrap().get_header().is_text_frame());
    assert!(!tag.find_frame_by_name("COMM").unwrap().get_header().is_text_frame());
    assert!(matches!(tag.find_frame_by_name("COMM").unwrap(), ID3Frame::Unknown { .. }));
}

#[test]
fn empty_tag() {
    let tag = ID3::new();
    assert_eq!(tag.header.version, (3, 0));
    assert_eq!(tag.header.size, 0);
    assert_eq!(tag.header.flags.bits(), 0);
    assert!(tag.body.frames.is_empty());
    assert!(tag.find_frame_by_name("TIT2").is_none());
}
