use libmeta::container::jpeg::jpeg::Jpeg;
use libmeta::container::jpeg::marker;
use libmeta::container::jpeg::scanner::{Progress, Scanner};
use libmeta::errors::{BaseError, JpegErrorKind, MetaErrorKind};
use libmeta::meta::Meta;

/// The TIFF block of the fixture: 854 bytes, big-endian, with a first
/// directory of six fields, an Exif directory of three fields, and a second
/// directory of two fields that describes a thumbnail of 648 bytes.
fn exif_test_data() -> Vec<u8> {
    let mut d: Vec<u8> = Vec::new();
    d.extend_from_slice(&[0x4D, 0x4D, 0x00, 0x2A, 0x00, 0x00, 0x00, 0x08]);
    d.extend_from_slice(&[0x00, 0x06]);
    d.extend_from_slice(&[0x01, 0x0E, 0x00, 0x02, 0x00, 0x00, 0x00, 0x0B, 0x00, 0x00, 0x00, 0x56]);
    d.extend_from_slice(&[0x01, 0x1A, 0x00, 0x05, 0x00, 0x00, 0x00, 0x01, 0x00, 0x00, 0x00, 0x62]);
    d.extend_from_slice(&[0x01, 0x1B, 0x00, 0x05, 0x00, 0x00, 0x00, 0x01, 0x00, 0x00, 0x00, 0x6A]);
    d.extend_from_slice(&[0x01, 0x28, 0x00, 0x03, 0x00, 0x00, 0x00, 0x01, 0x00, 0x02, 0x00, 0x00]);
    d.extend_from_slice(&[0x01, 0x32, 0x00, 0x02, 0x00, 0x00, 0x00, 0x14, 0x00, 0x00, 0x00, 0x72]);
    d.extend_from_slice(&[0x87, 0x69, 0x00, 0x04, 0x00, 0x00, 0x00, 0x01, 0x00, 0x00, 0x00, 0x86]);
    d.extend_from_slice(&[0x00, 0x00, 0x00, 0xB0]);
    d.extend_from_slice(b"Test image\0");
    d.push(0x00);
    d.extend_from_slice(&[0x00, 0x00, 0x00, 0x48, 0x00, 0x00, 0x00, 0x01]);
    d.extend_from_slice(&[0x00, 0x00, 0x00, 0x48, 0x00, 0x00, 0x00, 0x01]);
    d.extend_from_slice(b"2016:05:04 03:02:01\0");
    d.extend_from_slice(&[0x00, 0x03]);
    d.extend_from_slice(&[0x90, 0x00, 0x00, 0x07, 0x00, 0x00, 0x00, 0x04, 0x30, 0x32, 0x33, 0x30]);
    d.extend_from_slice(&[0xA0, 0x02, 0x00, 0x03, 0x00, 0x00, 0x00, 0x01, 0x00, 0x0F, 0x00, 0x00]);
    d.extend_from_slice(&[0xA0, 0x03, 0x00, 0x03, 0x00, 0x00, 0x00, 0x01, 0x00, 0x07, 0x00, 0x00]);
    d.extend_from_slice(&[0x00, 0x00, 0x00, 0x00]);
    d.extend_from_slice(&[0x00, 0x02]);
    d.extend_from_slice(&[0x02, 0x01, 0x00, 0x04, 0x00, 0x00, 0x00, 0x01, 0x00, 0x00, 0x00, 0xCE]);
    d.extend_from_slice(&[0x02, 0x02, 0x00, 0x04, 0x00, 0x00, 0x00, 0x01, 0x00, 0x00, 0x02, 0x88]);
    d.extend_from_slice(&[0x00, 0x00, 0x00, 0x00]);
    d.extend_from_slice(&[0xFF, 0xD8]);
    for i in 0..644usize {
        d.push((i % 251) as u8);
    }
    d.extend_from_slice(&[0xFF, 0xD9]);
    assert_eq!(d.len(), 854);
    d
}

/// The JPEG stream of the fixture: the start of image, the JFIF segment, the
/// Exif segment with the TIFF block above, and the start of scan with a few
/// bytes of image data.
fn jpeg_test_data() -> Vec<u8> {
    let mut d: Vec<u8> = vec![0xFF, 0xD8];
    d.extend_from_slice(&[0xFF, 0xE0, 0x00, 0x10]);
    d.extend_from_slice(&[0x4A, 0x46, 0x49, 0x46, 0x00, 0x01, 0x01, 0x01, 0x00, 0x48, 0x00, 0x48, 0x00, 0x00]);
    d.extend_from_slice(&[0xFF, 0xE1, 0x03, 0x5E]);
    d.extend_from_slice(&[0x45, 0x78, 0x69, 0x66, 0x00, 0x00]);
    d.extend_from_slice(&exif_test_data());
    d.extend_from_slice(&[0xFF, 0xDA, 0x00, 0x0C, 0x03, 0x01, 0x00, 0x02, 0x11, 0x03, 0x11, 0x00, 0x3F, 0x00, 0xFF, 0xD9]);
    d
}


fn scan_in_chunks(data: &[u8], size: usize) -> Scanner {
    let mut scanner = Scanner::new();
    let mut steps = 0;
    for chunk in data.chunks(size) {
        let before = scanner.consumed;
        let kept = scanner.segments.len();
        scanner.feed(chunk);
        let progress = scanner.advance(false).unwrap();
        steps += 1;
        // What was read is not read again: the place only moves on, and the
        // segments that were kept stay.
        assert!(scanner.consumed >= before);
        assert!(scanner.segments.len() >= kept);
        if progress == Progress::Finished {
            break;
        }
    }
    assert!(steps > 0);
    scanner
}

#[test]
fn scanner_gives_what_one_scan_gives() {
    let data = jpeg_test_data();
    let whole = Jpeg::parse(&data).unwrap();
    for size in [1usize, 2, 3, 7, 64, 860, 4096] {
        let scanner = scan_in_chunks(&data, size);
        assert!(scanner.finished, "chunks of {}", size);
        assert_eq!(scanner.segments, whole.segments, "chunks of {}", size);
        let jpeg = scanner.finish().unwrap();
        assert_eq!(jpeg.segments, whole.segments);
    }
}

#[test]
fn scanner_stops_at_start_of_scan() {
    let data = jpeg_test_data();
    let mut scanner = Scanner::new();
    scanner.feed(&data[..888]);
    // The marker of the start of scan ends the scan though the stream goes on.
    assert_eq!(scanner.advance(false).unwrap(), Progress::Finished);
    assert_eq!(scanner.segments.len(), 2);
    scanner.feed(&data[888..]);
    assert_eq!(scanner.buffer.len(), 888);
    assert_eq!(scanner.advance(true).unwrap(), Progress::Finished);
}

#[test]
fn scanner_asks_for_more_inside_a_segment() {
    let data = jpeg_test_data();
    let mut scanner = Scanner::new();
    scanner.feed(&data[..1]);
    assert_eq!(scanner.advance(false).unwrap(), Progress::NeedMore);
    scanner.feed(&data[1..10]);
    assert_eq!(scanner.advance(false).unwrap(), Progress::NeedMore);
    assert_eq!(scanner.consumed, 2);
    scanner.feed(&data[10..100]);
    assert_eq!(scanner.advance(false).unwrap(), Progress::NeedMore);
    assert_eq!(scanner.consumed, 20);
    assert_eq!(scanner.segments.len(), 1);
    assert_eq!(scanner.segments[0].marker, marker::APP0);

    // At the end of the stream the same is an error.
    let err = scanner.advance(true).unwrap_err();
    assert_eq!(err.kind, JpegErrorKind::Truncated);
    assert_eq!(err.to_string(), "JPEG truncated: segment data");
}

#[test]
fn scanner_ends_between_segments_at_the_end_of_the_stream() {
    let data = jpeg_test_data();
    let mut scanner = Scanner::new();
    scanner.feed(&data[..20]);
    assert_eq!(scanner.advance(false).unwrap(), Progress::NeedMore);
    assert_eq!(scanner.advance(true).unwrap(), Progress::Finished);
    assert_eq!(scanner.segments.len(), 1);
}

#[test]
fn scanner_refuses_a_wrong_header_and_a_wrong_marker() {
    let mut scanner = Scanner::new();
    scanner.feed(&[0xFF, 0x00, 0x01]);
    let err = scanner.advance(false).unwrap_err();
    assert_eq!(err.to_string(), "JPEG parse failed: invalid header");
    let top = Meta::scan_failed(&scanner.buffer, err);
    assert_eq!(top.to_string(), "Meta unknown header [ff, 00]");

    let mut scanner = Scanner::new();
    assert_eq!(scanner.advance(false).unwrap(), Progress::NeedMore);
    let err = scanner.advance(true).unwrap_err();
    assert_eq!(err.to_string(), "JPEG parse failed: invalid header");

    let mut scanner = Scanner::new();
    scanner.feed(&[0xFF, 0xD8, 0xFF, 0xE9]);
    let err = scanner.advance(false).unwrap_err();
    assert_eq!(err.kind, JpegErrorKind::Parse);
    let top = Meta::scan_failed(&scanner.buffer, err);
    assert_eq!(top.kind, MetaErrorKind::Jpeg);
}

#[test]
fn metadata_from_a_scanner_is_that_of_the_stream() {
    let data = jpeg_test_data();
    let scanner = scan_in_chunks(&data, 10);
    let streamed = Meta::from_scanner(scanner).unwrap();
    let whole = libmeta::parse(&data).unwrap();
    assert_eq!(streamed.to_string(), whole.to_string());

    let mut scanner = Scanner::new();
    scanner.feed(&[0xFF, 0xD8]);
    assert_eq!(scanner.advance(true).unwrap(), Progress::Finished);
    let err = Meta::from_scanner(scanner).unwrap_err();
    assert_eq!(err.source_to_string(), "JPEG parse failed: no segments found");
}
