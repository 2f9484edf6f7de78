use libmeta::container::jpeg::jpeg::{parse_segments, skip_until, Jpeg};
use libmeta::container::jpeg::marker;
use libmeta::container::jpeg::segment::{parse, parse_data, parse_length, parse_marker, Segment};
use libmeta::errors::{BaseError, JpegError, JpegErrorKind};
use libmeta::meta::jfif::DensityUnit;

/// The TIFF block of the fixture: 854 bytes, big-endian, with a first
/// directory of six fields, an Exif directory of three fields, and a second
/// directory of two fields that describes a thumbnail of 648 bytes.
fn exif_test_data() -> Vec<u8> {
    let mut d: Vec<u8> = Vec::new();
    d.extend_from_slice(&[0x4D, 0x4D, 0x00, 0x2A, 0x00, 0x00, 0x00, 0x08]);
    d.extend_from_slice(&[0x00, 0x06]);
    d.extend_from_slice(&[0x01, 0x0E, 0x00, 0x02, 0x00, 0x00, 0x00, 0x0B, 0x00, 0x00, 0x00, 0x56]);
    d.extend_from_slice(&[0x01, 0x1A, 0x00, 0x05, 0x00, 0x00, 0x00, 0x01, 0x00, 0x00, 0x00, 0x62]);
    d.extend_from_slice(&[0x01, 0x1B, 0x00, 0x05, 0x00, 0x00, 0x00, 0x01, 0x00, 0x00, 0x00, 0x6A]);
    d.extend_from_slice(&[0x01, 0x28, 0x00, 0x03, 0x00, 0x00, 0x00, 0x01, 0x00, 0x02, 0x00, 0x00]);
    d.extend_from_slice(&[0x01, 0x32, 0x00, 0x02, 0x00, 0x00, 0x00, 0x14, 0x00, 0x00, 0x00, 0x72]);
    d.extend_from_slice(&[0x87, 0x69, 0x00, 0x04, 0x00, 0x00, 0x00, 0x01, 0x00, 0x00, 0x00, 0x86]);
    d.extend_from_slice(&[0x00, 0x00, 0x00, 0xB0]);
    d.extend_from_slice(b"Test image\0");
    d.push(0x00);
    d.extend_from_slice(&[0x00, 0x00, 0x00, 0x48, 0x00, 0x00, 0x00, 0x01]);
    d.extend_from_slice(&[0x00, 0x00, 0x00, 0x48, 0x00, 0x00, 0x00, 0x01]);
    d.extend_from_slice(b"2016:05:04 03:02:01\0");
    d.extend_from_slice(&[0x00, 0x03]);
    d.extend_from_slice(&[0x90, 0x00, 0x00, 0x07, 0x00, 0x00, 0x00, 0x04, 0x30, 0x32, 0x33, 0x30]);
    d.extend_from_slice(&[0xA0, 0x02, 0x00, 0x03, 0x00, 0x00, 0x00, 0x01, 0x00, 0x0F, 0x00, 0x00]);
    d.extend_from_slice(&[0xA0, 0x03, 0x00, 0x03, 0x00, 0x00, 0x00, 0x01, 0x00, 0x07, 0x00, 0x00]);
    d.extend_from_slice(&[0x00, 0x00, 0x00, 0x00]);
    d.extend_from_slice(&[0x00, 0x02]);
    d.extend_from_slice(&[0x02, 0x01, 0x00, 0x04, 0x00, 0x00, 0x00, 0x01, 0x00, 0x00, 0x00, 0xCE]);
    d.extend_from_slice(&[0x02, 0x02, 0x00, 0x04, 0x00, 0x00, 0x00, 0x01, 0x00, 0x00, 0x02, 0x88]);
    d.extend_from_slice(&[0x00, 0x00, 0x00, 0x00]);
    d.extend_from_slice(&[0xFF, 0xD8]);
    for i in 0..644usize {
        d.push((i % 251) as u8);
    }
    d.extend_from_slice(&[0xFF, 0xD9]);
    assert_eq!(d.len(), 854);
    d
}

/// The JPEG stream of the fixture: the start of image, the JFIF segment, the
/// Exif segment with the TIFF block above, and the start of scan with a few
/// bytes of image data.
fn jpeg_test_data() -> Vec<u8> {
    let mut d: Vec<u8> = vec![0xFF, 0xD8];
    d.extend_from_slice(&[0xFF, 0xE0, 0x00, 0x10]);
    d.extend_from_slice(&[0x4A, 0x46, 0x49, 0x46, 0x00, 0x01, 0x01, 0x01, 0x00, 0x48, 0x00, 0x48, 0x00, 0x00]);
    d.extend_from_slice(&[0xFF, 0xE1, 0x03, 0x5E]);
    d.extend_from_slice(&[0x45, 0x78, 0x69, 0x66, 0x00, 0x00]);
    d.extend_from_slice(&exif_test_data());
    d.extend_from_slice(&[0xFF, 0xDA, 0x00, 0x0C, 0x03, 0x01, 0x00, 0x02, 0x11, 0x03, 0x11, 0x00, 0x3F, 0x00, 0xFF, 0xD9]);
    d
}


const JFIF_DATA_1: [u8; 18] = [
    0xff, 0xe0, 0x00, 0x10, 0x4a, 0x46, 0x49, 0x46, 0x00, 0x01, 0x02, 0x01, 0x00, 0x48, 0x00, 0x48,
    0x00, 0x00,
];

#[test]
fn jpeg_test_parse() {
    let data = jpeg_test_data();
    let jpeg = Jpeg::parse(&data).unwrap();

    let jfif = jpeg.jfif().unwrap().unwrap();
    assert_eq!(jfif.major, 1);
    assert_eq!(jfif.minor, 1);
    assert_eq!(jfif.density, DensityUnit::PixelsPerInch);
    assert_eq!(jfif.x_density, 72);
    assert_eq!(jfif.y_density, 72);
    assert_eq!(jfif.x_dimension, 0);
    assert_eq!(jfif.y_dimension, 0);
}

#[test]
fn jpeg_test_parse_exif_success() {
    let data = jpeg_test_data();
    let segments = parse_segments(&data[20..]).unwrap();
    assert_eq!(segments.len(), 1);
    assert_eq!(segments[0].marker, marker::APP1);
    assert_eq!(segments[0].length, 860);
    assert_eq!(segments[0].data.as_ref().unwrap().len(), 860);
}

#[test]
fn jpeg_test_parse_data_not_enough_data() {
    let data = jpeg_test_data();
    let err = parse_segments(&data[2..19]).unwrap_err();
    assert_eq!(err.to_string(), JpegError::truncated().with_msg(": segment data").to_string());
    assert_eq!(err.source_to_string(), "nom::Parsing requires 1 bytes/chars");
}

#[test]
fn jpeg_test_parse_length_ask_for_more_data() {
    let data = jpeg_test_data();
    let err = parse_segments(&data[2..4]).unwrap_err();
    assert_eq!(err.to_string(), JpegError::truncated().with_msg(": segment length").to_string());
    assert_eq!(err.source_to_string(), "nom::Parsing requires 2 bytes/chars");
}

#[test]
fn test_parse_jfif_segment_success() {
    let data = jpeg_test_data();
    let segments = parse_segments(&data[2..20]).unwrap();
    assert_eq!(segments.len(), 1);
    assert_eq!(segments[0].marker, marker::APP0);
    assert_eq!(segments[0].length, 14);
    assert_eq!(segments[0].data, Some(data[6..20].to_vec()));
}

#[test]
fn jpeg_test_parse_marker_not_enough_data() {
    let data: [u8; 0] = [];
    let err = parse_segments(&data[..]).unwrap_err();
    assert_eq!(err.to_string(), JpegError::parse(": no segments found").to_string());

    let data = jpeg_test_data();
    let err = parse_segments(&data[2..3]).unwrap_err();
    assert_eq!(err.to_string(), JpegError::truncated().with_msg(": segment marker").to_string());
    assert_eq!(err.source_to_string(), "nom::Parsing requires 1 bytes/chars");
}

#[test]
fn test_parse_segments() {
    let data = jpeg_test_data();
    let segments = parse_segments(&data[2..]).unwrap();
    assert_eq!(segments.len(), 2);
}

#[test]
fn test_parse_not_enough_data() {
    let data = marker::HEADER;
    let err = Jpeg::parse(&data[..]).unwrap_err();
    assert_eq!(err.to_string(), JpegError::parse(": no segments found").to_string());
}

#[test]
fn test_parse_header_invalid() {
    let data = [0xFF, 0x00];
    assert_eq!(
        Jpeg::parse(&data[..]).unwrap_err().to_string(),
        JpegError::parse(": invalid header").to_string()
    );
}

#[test]
fn test_is_jpeg() {
    assert_eq!(Jpeg::is_jpeg(&marker::HEADER), true);
    assert_eq!(Jpeg::is_jpeg(&[0xFF, 0xF0]), false);
}

#[test]
fn test_jfif_success() {
    let jfif = libmeta::meta::Jfif::parse(&JFIF_DATA_1[4..]).unwrap();
    assert_eq!(jfif.major, 1);
    assert_eq!(jfif.minor, 2);
}

#[test]
fn test_segment_parser_success() {
    let (remain, segment) = parse(&JFIF_DATA_1).unwrap();
    assert_eq!(segment.marker, marker::APP0);
    let data = segment.data.unwrap();
    assert_eq!(data, &JFIF_DATA_1[4..]);
    assert_eq!(remain, &[] as &[u8]);
    assert_eq!(std::str::from_utf8(&data).unwrap(), "JFIF\0\u{1}\u{2}\u{1}\0H\0H\0\0");
}

#[test]
fn test_data_parser() {
    let (remain, data) = parse_data(&JFIF_DATA_1[4..], 14).unwrap();
    assert_eq!(remain, &[] as &[u8]);
    assert_eq!(data, &JFIF_DATA_1[4..]);
}

#[test]
fn test_length_success() {
    {
        let (remain, length) = parse_length(&[0x00, 0x03, 0x02]).unwrap();
        assert_eq!(remain, &[0x02]);
        assert_eq!(length, 1);
    }
    {
        let (remain, length) = parse_length(&JFIF_DATA_1[2..]).unwrap();
        assert_eq!(remain, &JFIF_DATA_1[4..]);
        assert_eq!(length, 14);
    }
}

#[test]
fn test_marker_parser_success() {
    let (remain, marker) = parse_marker(&JFIF_DATA_1).unwrap();
    assert_eq!(remain, &JFIF_DATA_1[2..]);
    assert_eq!(marker, [0xFF, 0xE0]);
}

#[test]
fn test_marker_parser_fail() {
    let result = parse_marker(&JFIF_DATA_1[2..]);
    assert!(result.is_err());
    let err = result.unwrap_err();

    assert_eq!(err.to_string(), "JPEG parse failed: segment marker");
    assert_eq!(
        err.source_to_string(),
        "nom::Parsing Error: Error { input: [0, 16, 74, 70, 73, 70, 0, 1, 2, 1, 0, 72, 0, 72, 0, 0], code: Tag }"
    );
}

#[test]
fn test_parse_marker_unknown() {
    let err = parse(&[0xff, 0xe9]).unwrap_err();
    assert_eq!(
        err.to_string(),
        JpegError::parse(": segment marker unknown").with_data(&[0xff, 0xe9]).to_string()
    );
}

#[test]
fn test_parse_ask_for_more_data() {
    let err = parse(&[]).unwrap_err();
    assert_eq!(err.to_string(), JpegError::truncated().with_msg(": segment marker").to_string());
    assert_eq!(err.source_to_string(), "nom::Parsing requires 1 bytes/chars");
}

#[test]
fn segment_test_parse_exif_success() {
    let data = jpeg_test_data();
    let (_, segment) = parse(&data[20..]).unwrap();
    assert_eq!(segment.marker, marker::APP1);
    assert_eq!(segment.length, 860);
    assert_eq!(segment.data.unwrap().len(), 860);
}

#[test]
fn test_parse_segment_jfif_success() {
    let data = jpeg_test_data();
    let (remain, segment) = parse(&data[2..20]).unwrap();
    assert_eq!(remain, &[] as &[u8]);
    assert_eq!(segment.marker, marker::APP0);
    assert_eq!(segment.data.unwrap(), &data[6..20]);
}

#[test]
fn segment_test_parse_data_not_enough_data() {
    let data = jpeg_test_data();
    let err = parse_data(&data[6..19], 14).unwrap_err();
    assert_eq!(err.to_string(), JpegError::truncated().with_msg(": segment data").to_string());
    assert_eq!(err.source_to_string(), "nom::Parsing requires 1 bytes/chars");
}

#[test]
fn test_parse_data_valid() {
    let data = jpeg_test_data();
    let (remain, found) = parse_data(&data[6..20], 14).unwrap();
    assert_eq!(remain, &[] as &[u8]);
    assert_eq!(found, &data[6..20]);
}

#[test]
fn segment_test_parse_length_ask_for_more_data() {
    let err = parse_length(&[]).unwrap_err();
    assert_eq!(err.to_string(), JpegError::truncated().with_msg(": segment length").to_string());
    assert_eq!(err.source_to_string(), "nom::Parsing requires 2 bytes/chars");
}

#[test]
fn test_parse_length_success() {
    let data = jpeg_test_data();
    let (remain, length) = parse_length(&data[4..6]).unwrap();
    assert_eq!(remain, &[] as &[u8]);
    assert_eq!(length, 14);
}

#[test]
fn test_parse_marker_success() {
    let data = jpeg_test_data();
    let (remain, marker) = parse_marker(&data[2..4]).unwrap();
    assert_eq!(remain, &[] as &[u8]);
    assert_eq!(marker, marker::APP0);
}

#[test]
fn segment_test_parse_marker_not_enough_data() {
    let err = parse_marker(&[0xFF]).unwrap_err();
    assert_eq!(err.to_string(), JpegError::truncated().with_msg(": segment marker").to_string());
    assert_eq!(err.source_to_string(), "nom::Parsing requires 1 bytes/chars");
}

#[test]
fn scan_stops_at_start_of_scan() {
    let mut data: Vec<u8> = vec![0xFF, 0xD8, 0xFF, 0xE0, 0x00, 0x10];
    data.extend_from_slice(&JFIF_DATA_1[4..]);
    data.extend_from_slice(&[0xFF, 0xDA]);
    let clean = Jpeg::parse(&data).unwrap();
    assert_eq!(clean.segments.len(), 1);
    assert_eq!(clean.segments[0].marker, marker::APP0);

    // What follows the start of scan is never looked at: not even a marker
    // that the scanner would refuse.
    data.extend_from_slice(&[0xFF, 0xE9, 0x00, 0xFF, 0x01]);
    let noisy = Jpeg::parse(&data).unwrap();
    assert_eq!(noisy.segments, clean.segments);
}

#[test]
fn scan_keeps_both_metadata_segments_in_order() {
    let data = jpeg_test_data();
    let jpeg = Jpeg::parse(&data).unwrap();
    assert_eq!(jpeg.segments.len(), 2);
    assert_eq!(jpeg.segments[0].marker, marker::APP0);
    assert_eq!(jpeg.segments[1].marker, marker::APP1);
    for segment in jpeg.segments.iter() {
        assert_eq!(segment.data.as_ref().unwrap().len(), segment.length as usize);
    }
}

#[test]
fn scan_passes_over_tables() {
    let mut data: Vec<u8> = vec![0xFF, 0xD8];
    data.extend_from_slice(&[0xFF, 0xDB, 0x00, 0x04, 0xAA, 0xBB]);
    data.extend_from_slice(&[0x00, 0x00]);
    data.extend_from_slice(&JFIF_DATA_1);
    data.extend_from_slice(&[0xFF, 0xC4, 0x00, 0x02]);
    data.extend_from_slice(&[0xFF, 0xDA]);
    let jpeg = Jpeg::parse(&data).unwrap();
    assert_eq!(jpeg.segments.len(), 1);
    assert_eq!(jpeg.segments[0], Segment::new(marker::APP0, 14, Some(JFIF_DATA_1[4..].to_vec())));
}

#[test]
fn scan_refuses_unknown_marker() {
    let data = [0xFF, 0xD8, 0xFF, 0xE9, 0x00, 0x02];
    let err = Jpeg::parse(&data).unwrap_err();
    assert_eq!(err.kind, JpegErrorKind::Parse);
    assert_eq!(err.to_string(), "JPEG parse failed: segment marker unknown [ff, e9]");
}

#[test]
fn segment_length_below_two_is_refused() {
    let err = parse(&[0xFF, 0xE0, 0x00, 0x01]).unwrap_err();
    assert_eq!(err.kind, JpegErrorKind::Parse);
    assert_eq!(err.to_string(), "JPEG parse failed: segment length too short");
}

#[test]
fn skip_until_stops_at_the_marker() {
    assert_eq!(skip_until(&[0x00, 0x01, 0x02, 0x03], 0x02), &[0x02, 0x03]);
    assert_eq!(skip_until(&[0x00, 0x01, 0x02, 0x03], 0x04), &[] as &[u8]);
    assert_eq!(skip_until(&[], 0x04), &[] as &[u8]);
}

#[test]
fn marker_names() {
    assert_eq!(marker::to_string(&marker::APP1), "Exif Marker Segment");
    assert_eq!(marker::to_string(&marker::SOS), "Start of Scan");
    assert_eq!(marker::to_string(&[0xFF, 0x01]), "Unknown marker");
    assert_eq!(marker::to_string(&[0x00, 0xE0]), "Unknown marker");
}

#[test]
fn segment_payload_as_text() {
    let segment = Segment::new(marker::APP0, 5, Some(vec![0x4A, 0x46, 0x00, 0x7F, 0x20]));
    assert_eq!(segment.data_to_ascii().unwrap(), "JF.. ");
    assert_eq!(Segment::new(marker::SOS, 0, None).data_to_ascii().unwrap(), "");
}

#[test]
fn segment_prints_as_a_constant_array() {
    let payload: Vec<u8> = (0u8..12).collect();
    let segment = Segment::new(marker::APP0, 12, Some(payload));
    assert_eq!(
        segment.to_string(),
        "const jfif: [u8; 12] = [\n    0x00, 0x01, 0x02, 0x03, 0x04, 0x05, 0x06, 0x07, 0x08, 0x09, \n    0x0a, 0x0b, \n];\n"
    );
    let empty = Segment::new(marker::DQT, 0, Some(vec![]));
    assert_eq!(empty.to_string(), "const define: [u8; 0] = [\n];\n");
    let jpeg = Jpeg { segments: vec![empty] };
    assert_eq!(jpeg.to_string(), "const define: [u8; 0] = [\n];\n\n");
}
