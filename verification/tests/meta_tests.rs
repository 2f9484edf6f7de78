use libmeta::container::Container;
use libmeta::errors::{BaseError, MetaErrorKind};
use libmeta::meta::{Kind, Meta, MetaData, MetaDataKind};

/// The TIFF block of the fixture: 854 bytes, big-endian, with a first
/// directory of six fields, an Exif directory of three fields, and a second
/// directory of two fields that describes a thumbnail of 648 bytes.
fn exif_test_data() -> Vec<u8> {
    let mut d: Vec<u8> = Vec::new();
    d.extend_from_slice(&[0x4D, 0x4D, 0x00, 0x2A, 0x00, 0x00, 0x00, 0x08]);
    d.extend_from_slice(&[0x00, 0x06]);
    d.extend_from_slice(&[0x01, 0x0E, 0x00, 0x02, 0x00, 0x00, 0x00, 0x0B, 0x00, 0x00, 0x00, 0x56]);
    d.extend_from_slice(&[0x01, 0x1A, 0x00, 0x05, 0x00, 0x00, 0x00, 0x01, 0x00, 0x00, 0x00, 0x62]);
    d.extend_from_slice(&[0x01, 0x1B, 0x00, 0x05, 0x00, 0x00, 0x00, 0x01, 0x00, 0x00, 0x00, 0x6A]);
    d.extend_from_slice(&[0x01, 0x28, 0x00, 0x03, 0x00, 0x00, 0x00, 0x01, 0x00, 0x02, 0x00, 0x00]);
    d.extend_from_slice(&[0x01, 0x32, 0x00, 0x02, 0x00, 0x00, 0x00, 0x14, 0x00, 0x00, 0x00, 0x72]);
    d.extend_from_slice(&[0x87, 0x69, 0x00, 0x04, 0x00, 0x00, 0x00, 0x01, 0x00, 0x00, 0x00, 0x86]);
    d.extend_from_slice(&[0x00, 0x00, 0x00, 0xB0]);
    d.extend_from_slice(b"Test image\0");
    d.push(0x00);
    d.extend_from_slice(&[0x00, 0x00, 0x00, 0x48, 0x00, 0x00, 0x00, 0x01]);
    d.extend_from_slice(&[0x00, 0x00, 0x00, 0x48, 0x00, 0x00, 0x00, 0x01]);
    d.extend_from_slice(b"2016:05:04 03:02:01\0");
    d.extend_from_slice(&[0x00, 0x03]);
    d.extend_from_slice(&[0x90, 0x00, 0x00, 0x07, 0x00, 0x00, 0x00, 0x04, 0x30, 0x32, 0x33, 0x30]);
    d.extend_from_slice(&[0xA0, 0x02, 0x00, 0x03, 0x00, 0x00, 0x00, 0x01, 0x00, 0x0F, 0x00, 0x00]);
    d.extend_from_slice(&[0xA0, 0x03, 0x00, 0x03, 0x00, 0x00, 0x00, 0x01, 0x00, 0x07, 0x00, 0x00]);
    d.extend_from_slice(&[0x00, 0x00, 0x00, 0x00]);
    d.extend_from_slice(&[0x00, 0x02]);
    d.extend_from_slice(&[0x02, 0x01, 0x00, 0x04, 0x00, 0x00, 0x00, 0x01, 0x00, 0x00, 0x00, 0xCE]);
    d.extend_from_slice(&[0x02, 0x02, 0x00, 0x04, 0x00, 0x00, 0x00, 0x01, 0x00, 0x00, 0x02, 0x88]);
    d.extend_from_slice(&[0x00, 0x00, 0x00, 0x00]);
    d.extend_from_slice(&[0xFF, 0xD8]);
    for i in 0..644usize {
        d.push((i % 251) as u8);
    }
    d.extend_from_slice(&[0xFF, 0xD9]);
    assert_eq!(d.len(), 854);
    d
}

/// The JPEG stream of the fixture: the start of image, the JFIF segment, the
/// Exif segment with the TIFF block above, and the start of scan with a few
/// bytes of image data.
fn jpeg_test_data() -> Vec<u8> {
    let mut d: Vec<u8> = vec![0xFF, 0xD8];
    d.extend_from_slice(&[0xFF, 0xE0, 0x00, 0x10]);
    d.extend_from_slice(&[0x4A, 0x46, 0x49, 0x46, 0x00, 0x01, 0x01, 0x01, 0x00, 0x48, 0x00, 0x48, 0x00, 0x00]);
    d.extend_from_slice(&[0xFF, 0xE1, 0x03, 0x5E]);
    d.extend_from_slice(&[0x45, 0x78, 0x69, 0x66, 0x00, 0x00]);
    d.extend_from_slice(&exif_test_data());
    d.extend_from_slice(&[0xFF, 0xDA, 0x00, 0x0C, 0x03, 0x01, 0x00, 0x02, 0x11, 0x03, 0x11, 0x00, 0x3F, 0x00, 0xFF, 0xD9]);
    d
}


#[test]
fn lib_test_parse() {
    let data = jpeg_test_data();
    let meta = libmeta::parse(&data).unwrap();
    assert!(meta.is_jpeg());
    assert_eq!(meta.exif.as_ref().unwrap().as_ref().unwrap().ifds.len(), 3);
    assert_eq!(meta.jfif.as_ref().unwrap().as_ref().unwrap().major, 1);
}

#[test]
fn test_meta_parse_header_is_valid_jpeg() {
    let data = jpeg_test_data();
    let meta = Meta::parse(&data).unwrap();
    assert_eq!(meta.is_jpeg(), true);
}

#[test]
fn test_meta_parse_header_is_not_valid() {
    let header = [0xFF, 0x00];
    let err = libmeta::parse(&header).unwrap_err();
    assert_eq!(err.to_string(), "Meta unknown header [ff, 00]");
    assert_eq!(err.source.is_none(), true);
}

#[test]
fn test_meta_parse_header_is_not_enough_data() {
    let header = [0xFF];
    let err = libmeta::parse(&header).unwrap_err();
    assert_eq!(err.to_string(), "Meta unknown header [ff]");
}

#[test]
fn every_other_header_is_refused() {
    for a in 0..=255u8 {
        for b in 0..=255u8 {
            let result = libmeta::parse(&[a, b]);
            if a == 0xFF && b == 0xD8 {
                // A stream that ends after the start of image holds no segment.
                assert_eq!(result.unwrap_err().kind, MetaErrorKind::Jpeg);
            } else {
                assert_eq!(result.unwrap_err().kind, MetaErrorKind::UnknownHeader);
            }
        }
    }
}

#[test]
fn parsing_twice_gives_the_same() {
    let first = jpeg_test_data();
    let second = first.clone();
    let a = libmeta::parse(&first).unwrap();
    let b = libmeta::parse(&second).unwrap();
    assert_eq!(a.to_string(), b.to_string());
    let (a, b) = (a.exif.unwrap().unwrap(), b.exif.unwrap().unwrap());
    assert_eq!(a.ifds.len(), b.ifds.len());
    for (x, y) in a.ifds.iter().zip(b.ifds.iter()) {
        assert_eq!(x.endian, y.endian);
        assert_eq!(x.fields.len(), y.fields.len());
        for (f, g) in x.fields.iter().zip(y.fields.iter()) {
            assert_eq!((f.tag, f.format, f.components, f.offset), (g.tag, g.format, g.components, g.offset));
            assert_eq!(f.data, g.data);
        }
    }
}

#[test]
fn one_block_may_fail_while_the_other_decodes() {
    let mut data = jpeg_test_data();
    // Spoil the byte order of the Exif block; the JFIF header is untouched.
    data[30] = 0x00;
    let meta = libmeta::parse(&data).unwrap();
    assert!(meta.jfif.as_ref().unwrap().is_ok());
    let err = meta.exif.as_ref().unwrap().as_ref().unwrap_err();
    assert_eq!(err.kind, MetaErrorKind::Jpeg);
    assert_eq!(
        err.source_to_string(),
        "JPEG parse failed: exif parsing ==> Exif parse failed: TIFF endian ==> nom::Parsing Error: Error { input: [0, 77, 0, 42, 0, 0, 0, 8, 0, 6], code: Tag }"
            .replace("[0, 77, 0, 42, 0, 0, 0, 8, 0, 6]", &format!("{:?}", &data[30..884]))
    );
}

#[test]
fn a_truncated_stream_fails_as_truncated() {
    let data = jpeg_test_data();
    let err = libmeta::parse(&data[..100]).unwrap_err();
    assert_eq!(err.kind, MetaErrorKind::Jpeg);
    assert_eq!(
        err.source_to_string(),
        "JPEG truncated: segment data ==> nom::Parsing requires 1 bytes/chars"
    );
}

#[test]
fn metadata_prints_its_fields() {
    let data = jpeg_test_data();
    let meta = libmeta::parse(&data).unwrap();
    let text = meta.to_string();
    let lines: Vec<&str> = text.lines().collect();
    assert_eq!(lines[0], "  libmeta Version                 : 0.1.0");
    assert_eq!(lines[1], "  Image Description               : Test image");
    assert_eq!(lines[2], "  X Resolution                    : 72");
    assert_eq!(lines[4], "  Resolution Unit                 : inches");
    assert_eq!(lines[5], "  Date Time                       : 2016:05:04 03:02:01");
    assert_eq!(lines[6], "  Exif Offset                     : 134");
    assert_eq!(lines[7], "  Exif Version                    : 0230");
    assert_eq!(lines[11], "  Thumbnail Length                : 648");
    assert_eq!(lines[12], "");
    assert_eq!(lines.len(), 13);
}

#[test]
fn kinds_and_containers() {
    assert_eq!(Kind::default(), Kind::Unknown);
    assert_eq!(Kind::Jpeg.to_string(), "Jpeg");
    assert_eq!(Kind::Unknown.to_string(), "None");
    assert_eq!(Container::default().to_string(), "None");
    assert!(Container::default().parse_exif().is_none());
    assert!(Container::default().parse_jfif().is_none());
    let meta = libmeta::parse(&jpeg_test_data()).unwrap();
    assert_eq!(meta.container.as_ref().unwrap().to_string(), "Jpeg");
    assert_eq!(meta.exif.as_ref().unwrap().as_ref().unwrap().kind(), MetaDataKind::Exif);
    assert_eq!(meta.jfif.as_ref().unwrap().as_ref().unwrap().kind(), MetaDataKind::Jfif);
    assert!(!Meta::default().is_jpeg());
}
