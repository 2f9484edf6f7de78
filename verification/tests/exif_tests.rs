use libmeta::errors::{BaseError, ExifErrorKind};
use libmeta::meta::exif::exif::{
    parse_exif_header, parse_ifd_data, parse_ifd_offset, parse_ifds, parse_tiff_endian,
    parse_tiff_version,
};
use libmeta::meta::exif::ifd::parse_field_count;
use libmeta::meta::exif::tag::{self, Rational, Tag};
use libmeta::meta::exif::{
    Endian, Exif, Ifd, IfdEntry, IfdField, BIG_ENDIAN, LITTLE_ENDIAN, TIFF_VERSION,
};

/// The TIFF block of the fixture: 854 bytes, big-endian, with a first
/// directory of six fields, an Exif directory of three fields, and a second
/// directory of two fields that describes a thumbnail of 648 bytes.
fn exif_test_data() -> Vec<u8> {
    let mut d: Vec<u8> = Vec::new();
    d.extend_from_slice(&[0x4D, 0x4D, 0x00, 0x2A, 0x00, 0x00, 0x00, 0x08]);
    d.extend_from_slice(&[0x00, 0x06]);
    d.extend_from_slice(&[0x01, 0x0E, 0x00, 0x02, 0x00, 0x00, 0x00, 0x0B, 0x00, 0x00, 0x00, 0x56]);
    d.extend_from_slice(&[0x01, 0x1A, 0x00, 0x05, 0x00, 0x00, 0x00, 0x01, 0x00, 0x00, 0x00, 0x62]);
    d.extend_from_slice(&[0x01, 0x1B, 0x00, 0x05, 0x00, 0x00, 0x00, 0x01, 0x00, 0x00, 0x00, 0x6A]);
    d.extend_from_slice(&[0x01, 0x28, 0x00, 0x03, 0x00, 0x00, 0x00, 0x01, 0x00, 0x02, 0x00, 0x00]);
    d.extend_from_slice(&[0x01, 0x32, 0x00, 0x02, 0x00, 0x00, 0x00, 0x14, 0x00, 0x00, 0x00, 0x72]);
    d.extend_from_slice(&[0x87, 0x69, 0x00, 0x04, 0x00, 0x00, 0x00, 0x01, 0x00, 0x00, 0x00, 0x86]);
    d.extend_from_slice(&[0x00, 0x00, 0x00, 0xB0]);
    d.extend_from_slice(b"Test image\0");
    d.push(0x00);
    d.extend_from_slice(&[0x00, 0x00, 0x00, 0x48, 0x00, 0x00, 0x00, 0x01]);
    d.extend_from_slice(&[0x00, 0x00, 0x00, 0x48, 0x00, 0x00, 0x00, 0x01]);
    d.extend_from_slice(b"2016:05:04 03:02:01\0");
    d.extend_from_slice(&[0x00, 0x03]);
    d.extend_from_slice(&[0x90, 0x00, 0x00, 0x07, 0x00, 0x00, 0x00, 0x04, 0x30, 0x32, 0x33, 0x30]);
    d.extend_from_slice(&[0xA0, 0x02, 0x00, 0x03, 0x00, 0x00, 0x00, 0x01, 0x00, 0x0F, 0x00, 0x00]);
    d.extend_from_slice(&[0xA0, 0x03, 0x00, 0x03, 0x00, 0x00, 0x00, 0x01, 0x00, 0x07, 0x00, 0x00]);
    d.extend_from_slice(&[0x00, 0x00, 0x00, 0x00]);
    d.extend_from_slice(&[0x00, 0x02]);
    d.extend_from_slice(&[0x02, 0x01, 0x00, 0x04, 0x00, 0x00, 0x00, 0x01, 0x00, 0x00, 0x00, 0xCE]);
    d.extend_from_slice(&[0x02, 0x02, 0x00, 0x04, 0x00, 0x00, 0x00, 0x01, 0x00, 0x00, 0x02, 0x88]);
    d.extend_from_slice(&[0x00, 0x00, 0x00, 0x00]);
    d.extend_from_slice(&[0xFF, 0xD8]);
    for i in 0..644usize {
        d.push((i % 251) as u8);
    }
    d.extend_from_slice(&[0xFF, 0xD9]);
    assert_eq!(d.len(), 854);
    d
}

/// The JPEG stream of the fixture: the start of image, the JFIF segment, the
/// Exif segment with the TIFF block above, and the start of scan with a few
/// bytes of image data.
fn jpeg_test_data() -> Vec<u8> {
    let mut d: Vec<u8> = vec![0xFF, 0xD8];
    d.extend_from_slice(&[0xFF, 0xE0, 0x00, 0x10]);
    d.extend_from_slice(&[0x4A, 0x46, 0x49, 0x46, 0x00, 0x01, 0x01, 0x01, 0x00, 0x48, 0x00, 0x48, 0x00, 0x00]);
    d.extend_from_slice(&[0xFF, 0xE1, 0x03, 0x5E]);
    d.extend_from_slice(&[0x45, 0x78, 0x69, 0x66, 0x00, 0x00]);
    d.extend_from_slice(&exif_test_data());
    d.extend_from_slice(&[0xFF, 0xDA, 0x00, 0x0C, 0x03, 0x01, 0x00, 0x02, 0x11, 0x03, 0x11, 0x00, 0x3F, 0x00, 0xFF, 0xD9]);
    d
}


const EXIF_HEADER: [u8; 6] = [0x45, 0x78, 0x69, 0x66, 0x00, 0x00];

const IFD_LE: [u8; 42] = [
    /* 00-01 */ 0x49, 0x49, // alignment, little endian
    /* 02-03 */ 0x2A, 0x00, // ifd marker
    /* 04-07 */ 0x08, 0x00, 0x00, 0x00, // ifd start
    /* 08-09 */ 0x02, 0x00, // field count
    /* 10-11 */ 0x1A, 0x01, // id: 0x011A, XResolution
    /* 12-13 */ 0x05, 0x00, // data format: 5, unsigned rational
    /* 14-17 */ 0x01, 0x00, 0x00, 0x00, // components: 1, so data 8 bytes
    /* 18-21 */ 0x22, 0x00, 0x00, 0x00, // offset of 34
    /* 22-23 */ 0x69, 0x87, // id:
    /* 24-25 */ 0x04, 0x00, // data format: 4, unsigned long
    /* 26-29 */ 0x01, 0x00, 0x00, 0x00, // components: 1
    /* 30-33 */ 0x2B, 0x00, 0x00, 0x00, // data for field 2
    /* 34-41 */ 0x48, 0x00, 0x00, 0x00, 0x01, 0x00, 0x00, 0x00, // data for field 1
];

#[test]
fn exif_test_parse() {
    let data = jpeg_test_data();
    let exif = Exif::parse(&data[24..]).unwrap();
    assert_eq!(exif.ifds.len(), 3);
}

#[test]
fn exif_test_parse_exif_success() {
    let data = jpeg_test_data();
    let exif = Exif::parse(&data[24..884]).unwrap();
    assert_eq!(exif.ifds.len(), 3);
    assert_eq!(exif.ifds[0].fields.len(), 6);
    assert_eq!(exif.ifds[1].fields.len(), 3);
    assert_eq!(exif.ifds[2].fields.len(), 2);
}

#[test]
fn test_parse_ifds() {
    let data = exif_test_data();
    let (_, ifds) = parse_ifds(&data, &data[4..], Endian::Big).unwrap();
    assert_eq!(ifds.len(), 3);

    // IFD 0 spot check
    let field = &ifds[0].fields[3];
    assert_eq!(field.endian, Endian::Big);
    assert_eq!(field.tag, Tag::ResolutionUnit);
    assert_eq!(field.format, libmeta::meta::exif::format::UNSIGNED_SHORT);
    assert_eq!(field.components, 1);
    assert_eq!(field.offset, None);
    assert_eq!(field.length(), 2);
    assert_eq!(field.data, Some(vec![0x00, 0x02]));
    assert_eq!(field.to_unsigned(), Some(2));

    // IFD 1 spot check
    let field = &ifds[1].fields[1];
    assert_eq!(field.tag, Tag::ExifImageWidth);
    assert_eq!(field.format, libmeta::meta::exif::format::UNSIGNED_SHORT);
    assert_eq!(field.components, 1);
    assert_eq!(field.offset, None);
    assert_eq!(field.data, Some(vec![0x00, 0x0f]));
    assert_eq!(field.to_unsigned(), Some(15));

    // IFD 2 spot check
    let field = &ifds[2].fields[1];
    assert_eq!(field.tag, Tag::ThumbnailLength);
    assert_eq!(field.format, libmeta::meta::exif::format::UNSIGNED_LONG);
    assert_eq!(field.components, 1);
    assert_eq!(field.offset, None);
    assert_eq!(field.data, Some(vec![0x00, 0x00, 0x02, 0x88]));
    assert_eq!(field.to_unsigned(), Some(648));
}

#[test]
fn test_parse_ifd_offset_not_enough_data() {
    let err = parse_ifd_offset(&[0xFF], Endian::Big).unwrap_err();
    assert_eq!(err.to_string(), "Exif parse failed: IFD offset");
    assert_eq!(err.source_to_string(), "nom::Parsing requires 3 bytes/chars");
}

#[test]
fn test_parse_ifd_offset_little_endian() {
    let input = [0x24, 0x00, 0x00, 0x00];
    let (remain, offset) = parse_ifd_offset(&input, Endian::Little).unwrap();
    assert_eq!(remain, &[] as &[u8]);
    assert_eq!(offset, 0x24);
}

#[test]
fn test_parse_ifd_offset_big_endian() {
    let input = [0x00, 0x00, 0x00, 0x24];
    let (remain, data) = parse_ifd_data(&input).unwrap();
    assert_eq!(remain, &[] as &[u8]);
    assert_eq!(data, [0x00, 0x00, 0x00, 0x24]);
}

#[test]
fn test_parse_tiff_version_not_enough_data() {
    let err = parse_tiff_version(&[0xFF], Endian::Big).unwrap_err();
    assert_eq!(err.to_string(), "Exif parse failed: TIFF version");
    assert_eq!(err.source_to_string(), "nom::Parsing requires 1 bytes/chars");
}

#[test]
fn test_parse_tiff_version_little_endian() {
    let (remain, marker) = parse_tiff_version(&[0x2A, 0x00], Endian::Little).unwrap();
    assert_eq!(remain, &[] as &[u8]);
    assert_eq!(marker, TIFF_VERSION);
}

#[test]
fn test_parse_tiff_version_big_endian() {
    let (remain, marker) = parse_tiff_version(&[0x00, 0x2A], Endian::Big).unwrap();
    assert_eq!(remain, &[] as &[u8]);
    assert_eq!(marker, TIFF_VERSION);
}

#[test]
fn exif_test_parse_tiff_alignemnt_unknown() {
    let err = parse_tiff_endian(&[0xFF, 0xFF]).unwrap_err();
    assert_eq!(err.to_string(), "Exif parse failed: TIFF endian");
    assert_eq!(
        err.source_to_string(),
        "nom::Parsing Error: Error { input: [255, 255], code: Tag }"
    );
}

#[test]
fn exif_test_parse_tiff_alignemnt_big_endian() {
    let (remain, endian) = parse_tiff_endian(&BIG_ENDIAN).unwrap();
    assert_eq!(remain, &[] as &[u8]);
    assert_eq!(endian, Endian::Big);
}

#[test]
fn exif_test_parse_tiff_alignemnt_little_endian() {
    let (remain, endian) = parse_tiff_endian(&LITTLE_ENDIAN).unwrap();
    assert_eq!(remain, &[] as &[u8]);
    assert_eq!(endian, Endian::Little);
}

#[test]
fn exif_test_parse_exif_header_not_enough_data() {
    let err = parse_exif_header(&[]).unwrap_err();
    assert_eq!(
        err.all_to_string(),
        "Exif parse failed: Exif header ==> nom::Parsing requires 4 bytes/chars"
    );
}

#[test]
fn exif_test_parse_exif_header() {
    let (remain, id) = parse_exif_header(&EXIF_HEADER).unwrap();
    assert_eq!(remain, &[] as &[u8]);
    assert_eq!(id, EXIF_HEADER[0..4]);
}

#[test]
fn test_parse_ifd_field_header_big_endian() {
    let data = &[
        /* 00-01 */ 0x4D, 0x4D, // alignment, big endian
        /* 02-04 */ 0x00, 0x1A, // ifd marker
        /* 05-08 */ 0x00, 0x00, 0x00, 0x08, // ifd offset
        /* 09-10 */ 0x00, 0x01, // ifd field count
        0x01, 0x0e, // id
        0x00, 0x02, // data format
        0x00, 0x00, 0x00, 0x05, // number of components
        0x00, 0x00, 0x00, 0x16, // offset
        0x00, 0x00, 0x00, 0x00, 0x01, // data
    ];

    let (remain, ifd) = IfdField::parse(data, &data[10..], Endian::Big).unwrap();
    assert_eq!(remain, &data[22..]);
    assert_eq!(ifd.tag, Tag::from(270));
    assert_eq!(ifd.format, 2);
    assert_eq!(ifd.components, 5);
    assert_eq!(ifd.length(), 5);
    assert_eq!(ifd.offset, Some(22));
    assert_eq!(ifd.data, Some(data[22..].to_vec()));
}

#[test]
fn test_parse_ifd_field_little_endian() {
    let (remain, ifd) = IfdField::parse(&IFD_LE, &IFD_LE[10..], Endian::Little).unwrap();
    assert_eq!(remain, &IFD_LE[22..]);
    assert_eq!(ifd.tag, Tag::from(282));
    assert_eq!(ifd.format, 5);
    assert_eq!(ifd.components, 1);
    assert_eq!(ifd.length(), 8);
    assert_eq!(ifd.offset, Some(34));
    assert_eq!(ifd.data, Some(IFD_LE[34..].to_vec()));
}

#[test]
fn test_parse_ifd_offset_negative() {
    let data = &[
        0x01, 0x0e, // tag
        0x00, 0x02, // data format
        0x00, 0x00, 0x00, 0x05, // number of components
        0x00, 0x00, 0x00, 0x01, // invalid offset
        0x00, 0x00, 0x00, 0x00, 0x01, // data
    ];

    let err = IfdField::parse(data, data, Endian::Big).unwrap_err();
    assert_eq!(err.to_string(), "Exif parse failed: IFD field offset is negative");
}

#[test]
fn test_data_to_unsigned() {
    assert_eq!(
        IfdField::new(
            Endian::Big,
            Tag::ResolutionUnit,
            libmeta::meta::exif::format::UNSIGNED_SHORT,
            1
        )
        .with_data(&[0x00, 0x02, 0x00, 0x00,])
        .to_unsigned(),
        Some(2)
    );
}

#[test]
fn test_data_to_rational() {
    assert_eq!(
        IfdField::new(
            Endian::Big,
            Tag::XResolution,
            libmeta::meta::exif::format::UNSIGNED_RATIONAL,
            1
        )
        .with_data(&[0x00, 0x00, 0x00, 0x48, 0x00, 0x00, 0x00, 0x01,])
        .to_rationals()
        .unwrap(),
        vec![Rational::new(72, 1)]
    );
}

#[test]
fn test_data_to_ascii() {
    assert_eq!(
        IfdField::new(
            Endian::Big,
            Tag::ImageDescription,
            libmeta::meta::exif::format::ASCII_STRING,
            11
        )
        .with_data(&[0x54, 0x65, 0x73, 0x74, 0x20, 0x69, 0x6d, 0x61, 0x67, 0x65, 0x00, 0x46,])
        .to_ascii(),
        Some("Test image".into())
    );
}

fn length_of(format: u16) -> u64 {
    IfdField::new(Endian::Big, Tag::from(0), format, 10).length()
}

#[test]
fn test_tag_data_length() {
    assert_eq!(length_of(libmeta::meta::exif::format::UNSIGNED_BYTE), 10);
    assert_eq!(length_of(libmeta::meta::exif::format::ASCII_STRING), 10);
    assert_eq!(length_of(libmeta::meta::exif::format::UNSIGNED_SHORT), 20);
    assert_eq!(length_of(libmeta::meta::exif::format::UNSIGNED_LONG), 40);
    assert_eq!(length_of(libmeta::meta::exif::format::UNSIGNED_RATIONAL), 80);
    assert_eq!(length_of(libmeta::meta::exif::format::SIGNED_BYTE), 10);
    assert_eq!(length_of(libmeta::meta::exif::format::UNDEFINED), 10);
    assert_eq!(length_of(libmeta::meta::exif::format::SIGNED_SHORT), 20);
    assert_eq!(length_of(libmeta::meta::exif::format::SIGNED_LONG), 40);
    assert_eq!(length_of(libmeta::meta::exif::format::SIGNED_RATIONAL), 80);
}

fn entry_length(format: u16) -> u64 {
    IfdEntry::new(0, format, 10).data_length()
}

#[test]
fn test_entry_data_length() {
    assert_eq!(entry_length(libmeta::meta::exif::format::UNSIGNED_BYTE), 10);
    assert_eq!(entry_length(libmeta::meta::exif::format::ASCII_STRING), 10);
    assert_eq!(entry_length(libmeta::meta::exif::format::UNSIGNED_SHORT), 20);
    assert_eq!(entry_length(libmeta::meta::exif::format::UNSIGNED_LONG), 40);
    assert_eq!(entry_length(libmeta::meta::exif::format::UNSIGNED_RATIONAL), 80);
    assert_eq!(entry_length(libmeta::meta::exif::format::SIGNED_BYTE), 10);
    assert_eq!(entry_length(libmeta::meta::exif::format::UNDEFINED), 10);
    assert_eq!(entry_length(libmeta::meta::exif::format::SIGNED_SHORT), 20);
    assert_eq!(entry_length(libmeta::meta::exif::format::SIGNED_LONG), 40);
    assert_eq!(entry_length(libmeta::meta::exif::format::SIGNED_RATIONAL), 80);
}

#[test]
fn test_parse_exif_ifd() {
    let data = exif_test_data();
    let (_, ifd) = Ifd::parse(&data, &data[86..], Endian::Big, 134).unwrap();
    assert_eq!(ifd.fields.len(), 3);

    let field = &ifd.fields[0];
    assert_eq!(field.tag, tag::EXIF_VERSION);
    assert_eq!(field.format, libmeta::meta::exif::format::UNDEFINED);
    assert_eq!(field.components, 4);
    assert_eq!(field.offset, None);
    assert_eq!(field.data, Some(vec![0x30, 0x32, 0x33, 0x30]));
    assert_eq!(field.to_ascii(), Some("0230".to_string()));

    let field = &ifd.fields[1];
    assert_eq!(field.tag, tag::EXIF_IMAGE_WIDTH);
    assert_eq!(field.format, libmeta::meta::exif::format::UNSIGNED_SHORT);
    assert_eq!(field.components, 1);
    assert_eq!(field.offset, None);
    assert_eq!(field.data, Some(vec![0x00, 0x0f]));
    assert_eq!(field.to_unsigned(), Some(15));

    let field = &ifd.fields[2];
    assert_eq!(field.tag, tag::EXIF_IMAGE_HEIGHT);
    assert_eq!(field.format, libmeta::meta::exif::format::UNSIGNED_SHORT);
    assert_eq!(field.components, 1);
    assert_eq!(field.offset, None);
    assert_eq!(field.data, Some(vec![0x00, 0x07]));
    assert_eq!(field.to_unsigned(), Some(7));
}

#[test]
fn test_parse_ifd1() {
    let data = exif_test_data();
    let (_, ifd) = Ifd::parse(&data, &data[86..], Endian::Big, 176).unwrap();

    let field0 = &ifd.fields[0];
    assert_eq!(field0.tag, tag::THUMBNAIL_OFFSET);
    assert_eq!(field0.format, libmeta::meta::exif::format::UNSIGNED_LONG);
    assert_eq!(field0.components, 1);
    assert_eq!(field0.offset, None);
    assert_eq!(field0.data, Some(vec![0x00, 0x00, 0x00, 0xce]));
    assert_eq!(field0.to_unsigned(), Some(206));

    let field1 = &ifd.fields[1];
    assert_eq!(field1.tag, tag::THUMBNAIL_LENGTH);
    assert_eq!(field1.format, libmeta::meta::exif::format::UNSIGNED_LONG);
    assert_eq!(field1.components, 1);
    assert_eq!(field1.offset, None);
    assert_eq!(field1.data, Some(vec![0x00, 0x00, 0x02, 0x88]));
    assert_eq!(field1.to_unsigned(), Some(648));
}

#[test]
fn test_parse_ifd0() {
    let data = exif_test_data();
    let (_, ifd) = Ifd::parse(&data, &data[8..], Endian::Big, 8).unwrap();

    let field0 = &ifd.fields[0];
    assert_eq!(field0.endian, Endian::Big);
    assert_eq!(field0.tag, tag::IMAGE_DESCRIPTION);
    assert_eq!(field0.format, libmeta::meta::exif::format::ASCII_STRING);
    assert_eq!(field0.components, 11);
    assert_eq!(field0.length(), 11);
    assert_eq!(field0.offset, Some(86));
    let offset = field0.offset.unwrap() as usize;
    assert_eq!(field0.data, Some(Vec::from(&data[offset..offset + field0.length() as usize])));
    assert_eq!(field0.to_ascii(), Some("Test image".into()));

    let field1 = &ifd.fields[1];
    assert_eq!(field1.endian, Endian::Big);
    assert_eq!(field1.tag, tag::X_RESOLUTION);
    assert_eq!(field1.format, libmeta::meta::exif::format::UNSIGNED_RATIONAL);
    assert_eq!(field1.components, 1);
    assert_eq!(field1.length(), 8);
    assert_eq!(field1.offset, Some(98));
    let offset = field1.offset.unwrap() as usize;
    assert_eq!(field1.data, Some(Vec::from(&data[offset..offset + field1.length() as usize])));
    assert_eq!(field1.to_rational(), Some((72, 1)));

    let field2 = &ifd.fields[2];
    assert_eq!(field2.endian, Endian::Big);
    assert_eq!(field2.tag, tag::Y_RESOLUTION);
    assert_eq!(field2.format, libmeta::meta::exif::format::UNSIGNED_RATIONAL);
    assert_eq!(field2.components, 1);
    assert_eq!(field2.offset, Some(106));
    let offset = field2.offset.unwrap() as usize;
    assert_eq!(field2.length(), 8);
    assert_eq!(field2.data, Some(Vec::from(&data[offset..offset + field2.length() as usize])));
    assert_eq!(field2.to_rational(), Some((72, 1)));

    let field3 = &ifd.fields[3];
    assert_eq!(field3.endian, Endian::Big);
    assert_eq!(field3.tag, tag::RESOLUTION_UNIT);
    assert_eq!(field3.format, libmeta::meta::exif::format::UNSIGNED_SHORT);
    assert_eq!(field3.components, 1);
    assert_eq!(field3.offset, None);
    assert_eq!(field3.length(), 2);
    assert_eq!(field3.data, Some(vec![0x00, 0x02]));
    assert_eq!(field3.to_unsigned(), Some(2));

    let field4 = &ifd.fields[4];
    assert_eq!(field4.endian, Endian::Big);
    assert_eq!(field4.tag, tag::DATE_TIME);
    assert_eq!(field4.format, libmeta::meta::exif::format::ASCII_STRING);
    assert_eq!(field4.components, 20);
    assert_eq!(field4.offset, Some(114));
    assert_eq!(field4.length(), 20);
    let offset = field4.offset.unwrap() as usize;
    assert_eq!(field4.data, Some(Vec::from(&data[offset..offset + field4.length() as usize])));
    assert_eq!(field4.to_ascii(), Some("2016:05:04 03:02:01".into()));

    let field5 = &ifd.fields[5];
    assert_eq!(field5.endian, Endian::Big);
    assert_eq!(field5.tag, tag::EXIF_SUB_IFD_OFFSET);
    assert_eq!(field5.format, libmeta::meta::exif::format::UNSIGNED_LONG);
    assert_eq!(field5.components, 1);
    assert_eq!(field5.offset, None);
    assert_eq!(field5.length(), 4);
    assert_eq!(field5.data, Some(vec![0x00, 0x00, 0x00, 0x86]));
    assert_eq!(field5.to_unsigned(), Some(134));
}

#[test]
fn test_parse_ifd_single_field_big_endian() {
    let data = vec![
        /* 00-01 */ 0x4D, 0x4D, // alignment, big endian
        /* 02-03 */ 0x00, 0x1A, // ifd marker
        /* 04-07 */ 0x00, 0x00, 0x00, 0x08, // ifd offset
        /* 08-09 */ 0x00, 0x01, // ifd field count
        /* 10-11 */ 0x01, 0x0e, // id
        /* 12-13 */ 0x00, 0x02, // data format
        /* 14-17 */ 0x00, 0x00, 0x00, 0x05, // number of components
        /* 18-21 */ 0x00, 0x00, 0x00, 0x16, // offset
        /* 22-26 */ 0x00, 0x00, 0x00, 0x00, 0x01, // data
    ];

    let (remain, ifd) = Ifd::parse(&data, &data[8..], Endian::Big, 8).unwrap();
    assert_eq!(remain, &data[22..]);

    let field = &ifd.fields[0];
    assert_eq!(field.tag, Tag::from(270));
    assert_eq!(field.format, 2);
    assert_eq!(field.components, 5);
    assert_eq!(field.length(), 5);
    assert_eq!(field.offset, Some(22));
    assert_eq!(field.data, Some(Vec::from(&data[22..])));
}

#[test]
fn test_parse_ifd_fields_little_endian() {
    let (remain, ifd) = Ifd::parse(&IFD_LE, &IFD_LE[8..], Endian::Little, 8).unwrap();
    assert_eq!(remain, &IFD_LE[34..]);

    let field = &ifd.fields[0];
    assert_eq!(field.tag, Tag::from(282));
    assert_eq!(field.format, 5);
    assert_eq!(field.components, 1);
    assert_eq!(field.offset, Some(34));
    assert_eq!(field.length(), 8);
    assert_eq!(field.data, Some(Vec::from(&IFD_LE[34..])));

    let field = &ifd.fields[1];
    assert_eq!(field.tag, Tag::from(34665));
    assert_eq!(field.format, 4);
    assert_eq!(field.components, 1);
    assert_eq!(field.offset, None);
    assert_eq!(field.length(), 4);
    assert_eq!(field.data, Some(Vec::from(&[0x2B, 0x00, 0x00, 0x00])));
}

#[test]
fn test_parse_field_count_not_enough_data() {
    let err = parse_field_count(&[0xFF], Endian::Big).unwrap_err();
    assert_eq!(err.to_string(), "Exif parse failed: IFD field count");
    assert_eq!(err.source_to_string(), "nom::Parsing requires 1 bytes/chars");
}

#[test]
fn test_parse_ifd_field_count_little_endian() {
    let (remain, marker) = parse_field_count(&[0x01, 0x00], Endian::Little).unwrap();
    assert_eq!(remain, &[] as &[u8]);
    assert_eq!(marker, 0x1);
}

#[test]
fn test_parse_ifd_field_count_big_endian() {
    let (remain, marker) = parse_field_count(&[0x00, 0x01], Endian::Big).unwrap();
    assert_eq!(remain, &[] as &[u8]);
    assert_eq!(marker, 0x1);
}

#[test]
fn test_rational_not_enough_data() {
    let err = Rational::try_from(&[][..], Endian::Big).unwrap_err();
    assert_eq!(err.to_string(), "Exif parse failed: rational must be 8 bytes long".to_string());
}

#[test]
fn test_rational_le_success() {
    let r = Rational::try_from(
        &[0x01, 0x00, 0x00, 0x00, 0x02, 0x00, 0x00, 0x00][..],
        Endian::Little,
    )
    .unwrap();
    assert_eq!(r.num, 1);
    assert_eq!(r.den, 2);
}

#[test]
fn test_rational_be_success() {
    let r = Rational::try_from(&[0x00, 0x00, 0x00, 0x01, 0x00, 0x00, 0x00, 0x02][..], Endian::Big)
        .unwrap();
    assert_eq!(r.num, 1);
    assert_eq!(r.den, 2);
}

#[test]
fn fixture_decodes_as_described() {
    let data = exif_test_data();
    let mut block = EXIF_HEADER.to_vec();
    block.extend_from_slice(&data);
    let exif = Exif::parse(&block).unwrap();
    assert_eq!(exif.ifds.len(), 3);

    let description = exif.ifds[0].field_by_tag(Tag::from(0x010E)).unwrap();
    assert_eq!(description.tag.to_string(), "Image Description");
    assert_eq!(description.offset, Some(86));
    assert_eq!(description.to_ascii(), Some("Test image".to_string()));

    let resolution = exif.ifds[0].field_by_tag(Tag::from(0x011A)).unwrap();
    assert_eq!(resolution.tag.to_string(), "X Resolution");
    assert_eq!(resolution.to_rational(), Some((72, 1)));
    assert_eq!(resolution.to_string(), "72");

    let length = exif.ifds[2].field_by_tag(Tag::from(0x0202)).unwrap();
    assert_eq!(length.tag.to_string(), "Thumbnail Length");
    assert_eq!(length.to_unsigned(), Some(648));
}

#[test]
fn every_field_holds_data_of_its_length() {
    let data = exif_test_data();
    let (_, ifds) = parse_ifds(&data, &data[4..], Endian::Big).unwrap();
    for ifd in ifds.iter() {
        for field in ifd.fields.iter() {
            let length = field.length() as usize;
            let found = field.data.as_ref().unwrap();
            assert_eq!(found.len(), length);
            match field.offset {
                Some(offset) => {
                    assert!(length > 4);
                    assert_eq!(found[..], data[offset as usize..offset as usize + length]);
                }
                None => assert!(length <= 4),
            }
        }
    }
}

#[test]
fn every_short_block_is_truncated() {
    let data = exif_test_data();
    let mut block = EXIF_HEADER.to_vec();
    block.extend_from_slice(&data);
    // The thumbnail at the end is not read: the block decodes without it.
    for n in 0..212 {
        let err = Exif::parse(&block[..n]).unwrap_err();
        assert_eq!(*err.kind(), ExifErrorKind::Truncated, "at {}", n);
    }
    assert_eq!(Exif::parse(&block[..212]).unwrap().ifds.len(), 3);
}

#[test]
fn wrong_bytes_are_not_a_short_input() {
    let data = exif_test_data();
    let mut block = EXIF_HEADER.to_vec();
    block.extend_from_slice(&data);

    let mut wrong = block.clone();
    wrong[1] = 0x00;
    let err = Exif::parse(&wrong).unwrap_err();
    assert_eq!(*err.kind(), ExifErrorKind::Parse);
    assert_eq!(err.to_string(), "Exif parse failed: Exif header");

    let mut wrong = block.clone();
    wrong[6] = 0x4E;
    let err = Exif::parse(&wrong).unwrap_err();
    assert_eq!(*err.kind(), ExifErrorKind::Parse);
    assert_eq!(err.to_string(), "Exif parse failed: TIFF endian");

    let mut wrong = block.clone();
    wrong[9] = 0x2B;
    let err = Exif::parse(&wrong).unwrap_err();
    assert_eq!(*err.kind(), ExifErrorKind::Parse);
    assert_eq!(err.to_string(), "Exif parse failed: TIFF version invalid [00, 2b]");

    // The offset of the first directory points back into the header.
    let mut wrong = block.clone();
    wrong[13] = 0x04;
    let err = Exif::parse(&wrong).unwrap_err();
    assert_eq!(*err.kind(), ExifErrorKind::Parse);
    assert_eq!(err.to_string(), "Exif parse failed: offset to IFD is negative");

    // The offset of the first directory points beyond the block.
    let mut wrong = block.clone();
    wrong[12] = 0x10;
    let err = Exif::parse(&wrong).unwrap_err();
    assert_eq!(*err.kind(), ExifErrorKind::Truncated);
    assert_eq!(err.to_string(), "Exif parse failed: offset to IFD");
}

#[test]
fn both_byte_orders_decode_alike() {
    let big = IfdField::new(Endian::Big, Tag::ImageWidth, libmeta::meta::exif::format::UNSIGNED_LONG, 1)
        .with_data(&[0x00, 0x01, 0x02, 0x03]);
    let little =
        IfdField::new(Endian::Little, Tag::ImageWidth, libmeta::meta::exif::format::UNSIGNED_LONG, 1)
            .with_data(&[0x03, 0x02, 0x01, 0x00]);
    assert_eq!(big.to_unsigned(), Some(0x00010203));
    assert_eq!(big.to_unsigned(), little.to_unsigned());

    let big = IfdField::new(Endian::Big, Tag::Orientation, libmeta::meta::exif::format::UNSIGNED_SHORT, 1)
        .with_data(&[0x01, 0x02]);
    let little =
        IfdField::new(Endian::Little, Tag::Orientation, libmeta::meta::exif::format::UNSIGNED_SHORT, 1)
            .with_data(&[0x02, 0x01]);
    assert_eq!(big.to_unsigned(), Some(0x0102));
    assert_eq!(big.to_unsigned(), little.to_unsigned());

    let big = IfdField::new(Endian::Big, Tag::XResolution, libmeta::meta::exif::format::UNSIGNED_RATIONAL, 1)
        .with_data(&[0x00, 0x00, 0x01, 0x2C, 0x00, 0x00, 0x00, 0x07]);
    let little =
        IfdField::new(Endian::Little, Tag::XResolution, libmeta::meta::exif::format::UNSIGNED_RATIONAL, 1)
            .with_data(&[0x2C, 0x01, 0x00, 0x00, 0x07, 0x00, 0x00, 0x00]);
    assert_eq!(big.to_rational(), Some((300, 7)));
    assert_eq!(big.to_rational(), little.to_rational());
    assert_eq!(big.to_rationals().unwrap(), little.to_rationals().unwrap());
    assert_eq!(big.to_string(), "300/7");

    let big = IfdField::new(Endian::Big, Tag::Make, libmeta::meta::exif::format::ASCII_STRING, 4)
        .with_data(b"abc\0");
    let little = IfdField::new(Endian::Little, Tag::Make, libmeta::meta::exif::format::ASCII_STRING, 4)
        .with_data(b"abc\0");
    assert_eq!(big.to_ascii(), little.to_ascii());
}

#[test]
fn little_endian_block_with_gps_directory() {
    let mut block: Vec<u8> = EXIF_HEADER.to_vec();
    block.extend_from_slice(&[0x49, 0x49, 0x2A, 0x00, 0x08, 0x00, 0x00, 0x00]);
    // First directory at 8: the pointers to the Exif and the GPS directory.
    block.extend_from_slice(&[0x02, 0x00]);
    block.extend_from_slice(&[0x69, 0x87, 0x04, 0x00, 0x01, 0x00, 0x00, 0x00, 0x26, 0x00, 0x00, 0x00]);
    block.extend_from_slice(&[0x25, 0x88, 0x04, 0x00, 0x01, 0x00, 0x00, 0x00, 0x34, 0x00, 0x00, 0x00]);
    block.extend_from_slice(&[0x00, 0x00, 0x00, 0x00]);
    // Exif directory at 38.
    block.extend_from_slice(&[0x01, 0x00]);
    block.extend_from_slice(&[0x02, 0xA0, 0x03, 0x00, 0x01, 0x00, 0x00, 0x00, 0x10, 0x00, 0x00, 0x00]);
    // GPS directory at 52.
    block.extend_from_slice(&[0x01, 0x00]);
    block.extend_from_slice(&[0x00, 0x00, 0x01, 0x00, 0x04, 0x00, 0x00, 0x00, 0x02, 0x03, 0x00, 0x00]);
    let exif = Exif::parse(&block).unwrap();
    assert_eq!(exif.ifds.len(), 3);
    assert_eq!(exif.ifds[1].fields[0].tag, Tag::ExifImageWidth);
    assert_eq!(exif.ifds[1].fields[0].to_unsigned(), Some(16));
    assert_eq!(exif.ifds[2].fields[0].tag, Tag::Raw(0));
    assert_eq!(exif.ifds[2].fields[0].data, Some(vec![0x02, 0x03, 0x00, 0x00]));
    assert_eq!(exif.ifds[2].fields[0].tag.to_string(), "Unknown(0x0000)");
}

#[test]
fn unknown_format_has_no_data() {
    let data = [
        0x01, 0x00, // tag
        0x00, 0x63, // a format that is not known
        0x00, 0x00, 0x00, 0x09, // components
        0x01, 0x02, 0x03, 0x04,
    ];
    let (_, field) = IfdField::parse(&data, &data, Endian::Big).unwrap();
    assert_eq!(field.length(), 0);
    assert_eq!(field.offset, None);
    assert_eq!(field.data, Some(vec![]));
    assert_eq!(
        field.to_string(),
        "Debug [format: 99, components: 9, length: 0]\n                                  : Data: []"
    );
}

#[test]
fn values_print_by_tag_and_format() {
    let field = |tag: Tag, format: u16, data: &[u8]| {
        IfdField::new(Endian::Big, tag, format, 1).with_data(data).to_string()
    };
    assert_eq!(field(Tag::Orientation, 3, &[0x00, 0x06]), "Rotate 90 CW");
    assert_eq!(field(Tag::ResolutionUnit, 3, &[0x00, 0x02]), "inches");
    assert_eq!(field(Tag::YCbCrPositioning, 3, &[0x00, 0x02]), "Co-sited");
    assert_eq!(field(Tag::MeteringMode, 3, &[0x00, 0x05]), "Multi-segment");
    assert_eq!(field(Tag::Contrast, 3, &[0x00, 0x01]), "Low");
    assert_eq!(field(Tag::Saturation, 3, &[0x00, 0x02]), "High");
    assert_eq!(field(Tag::Sharpness, 3, &[0x00, 0x01]), "Soft");
    assert_eq!(field(Tag::SceneCaptureType, 3, &[0x00, 0x03]), "Night");
    assert_eq!(field(Tag::GainControl, 3, &[0x00, 0x00]), "None");
    assert_eq!(field(Tag::ExifVersion, 7, b"0230"), "0230");
    assert_eq!(field(Tag::ImageWidth, 4, &[0x00, 0x00, 0x10, 0x00]), "4096");
    assert_eq!(field(Tag::BitsPerSample, 1, &[0x08]), "8");
    assert_eq!(
        field(
            Tag::WhitePoint,
            5,
            &[0, 0, 0x0C, 0x37, 0, 0, 0x27, 0x10, 0, 0, 0x0C, 0xDA, 0, 0, 0x27, 0x10]
        ),
        "3127/10000, 3290/10000"
    );
    // A number that stands for no choice is shown as it is.
    assert_eq!(
        field(Tag::Orientation, 3, &[0x00, 0x09]),
        "Debug [format: 3, components: 1, length: 2]\n                                  : Data: [00, 09]"
    );
}

#[test]
fn tag_numbers_and_names() {
    assert_eq!(Tag::from(0x8769), Tag::ExifSubIfdOffset);
    assert_eq!(Tag::ExifSubIfdOffset.code(), 0x8769);
    assert!(Tag::ExifSubIfdOffset.no_display());
    assert!(!Tag::Make.no_display());
    assert_eq!(Tag::from(0xBEEF), Tag::Raw(0xBEEF));
    assert_eq!(Tag::Raw(0xBEEF).code(), 0xBEEF);
    assert_eq!(tag::tag_name(0x0132), "Date Time");
    assert_eq!(tag::tag_name(0x00AB), "Unknown(0x00ab)");
}

#[test]
fn byte_order_of_a_block() {
    let data = exif_test_data();
    let mut block = EXIF_HEADER.to_vec();
    block.extend_from_slice(&data);
    let exif = Exif::parse(&block).unwrap();
    assert!(exif.is_big_endian());
    assert_eq!(exif.ifds[0].endian.to_string(), "Big Endian (Motorola, MM)");
    assert_eq!(Endian::from(LITTLE_ENDIAN), Endian::Little);
    assert_eq!(Endian::try_from(&[0x4D, 0x49]), None);
    assert_eq!(Endian::Little.to_string(), "Little Endian (Intel, II)");

    let mut little = EXIF_HEADER.to_vec();
    little.extend_from_slice(&IFD_LE[..8]);
    little.extend_from_slice(&[0x00, 0x00, 0x00, 0x00, 0x00, 0x00]);
    let exif = Exif::parse(&little).unwrap();
    assert!(!exif.is_big_endian());
    assert_eq!(exif.ifds.len(), 1);
    assert_eq!(exif.ifds[0].fields.len(), 0);
}

#[test]
fn a_chain_ends_only_at_an_offset_of_zero() {
    // A header whose offset of the first directory is zero holds no directory.
    let mut block = EXIF_HEADER.to_vec();
    block.extend_from_slice(&[0x4D, 0x4D, 0x00, 0x2A, 0x00, 0x00, 0x00, 0x00]);
    assert_eq!(Exif::parse(&block).unwrap().ifds.len(), 0);

    // A directory that is not followed by an offset is cut short.
    let mut block = EXIF_HEADER.to_vec();
    block.extend_from_slice(&[0x4D, 0x4D, 0x00, 0x2A, 0x00, 0x00, 0x00, 0x08, 0x00, 0x00]);
    let err = Exif::parse(&block).unwrap_err();
    assert_eq!(*err.kind(), ExifErrorKind::Truncated);
    assert_eq!(err.all_to_string(), "Exif parse failed: IFD offset ==> nom::Parsing requires 4 bytes/chars");
}

#[test]
fn signed_numbers_and_rationals_of_odd_length() {
    let field = IfdField::new(Endian::Little, Tag::BrightnessValue, libmeta::meta::exif::format::SIGNED_SHORT, 1)
        .with_data(&[0x10, 0x01]);
    assert_eq!(field.to_signed(), Some(0x0110));
    assert_eq!(field.to_unsigned(), None);
    assert_eq!(field.to_string(), "272");

    let field = IfdField::new(Endian::Big, Tag::WhitePoint, libmeta::meta::exif::format::UNSIGNED_RATIONAL, 2)
        .with_data(&[0, 0, 0, 1, 0, 0, 0, 2, 0, 0, 0, 3]);
    let err = field.to_rationals().unwrap_err();
    assert_eq!(err.to_string(), "Exif parse failed: rational must be 8 bytes long");
    assert_eq!(field.to_rational(), Some((1, 2)));

    let field = IfdField::new(Endian::Big, Tag::WhitePoint, libmeta::meta::exif::format::UNSIGNED_RATIONAL, 2);
    let err = field.to_rationals().unwrap_err();
    assert_eq!(err.to_string(), "Exif parse failed: no data to convert to rational");
    assert_eq!(field.to_ascii(), None);
    assert_eq!(Rational::new(3, 1).to_string(), "3");
    assert_eq!(Rational::new(1, 250).to_string(), "1/250");
}

#[test]
fn an_offset_of_zero_is_reported_as_such() {
    let err = parse_ifd_offset(&[0x00, 0x00, 0x00, 0x00, 0x01], Endian::Big).unwrap_err();
    assert_eq!(*err.kind(), ExifErrorKind::OffsetIsZero);
    assert_eq!(err.to_string(), "Exif parse failed: Offset is zero");
    assert_eq!(err.source_to_string(), "");
    assert_eq!(Rational::new(0, 1).to_string(), "0");
    assert_eq!(Rational::new(4294967295, 10).to_string(), "4294967295/10");
}
