use libmeta::errors::{BaseError, JfifErrorKind};
use libmeta::meta::jfif::{
    parse_density, parse_header, parse_thumbnail_dimensions, parse_version, DensityUnit, Jfif,
};

const JFIF_DATA_1: [u8; 18] = [
    0xff, 0xe0, // marker
    0x00, 0x10, // size
    0x4a, 0x46, 0x49, 0x46, 0x00, // header
    0x01, // major version
    0x02, // minor version
    0x01, // density units
    0x00, 0x48, // x density
    0x00, 0x48, // y density
    0x00, 0x00,
];

#[test]
fn jfif_test_parse_jfif_success() {
    let jfif = Jfif::parse(&JFIF_DATA_1[4..]).unwrap();
    assert_eq!(jfif.major, 1);
    assert_eq!(jfif.minor, 2);
    assert_eq!(jfif.density, DensityUnit::PixelsPerInch);
    assert_eq!(jfif.x_density, 72);
    assert_eq!(jfif.y_density, 72);
    assert_eq!(jfif.x_dimension, 0);
    assert_eq!(jfif.y_dimension, 0);
}

#[test]
fn test_parse_jfif_thumbnail_dimensions_not_enough_data() {
    let err = parse_thumbnail_dimensions(&[]).unwrap_err();
    assert_eq!(
        err.all_to_string(),
        "JFIF parse failed: thumbnail dimensions invalid ==> nom::Parsing requires 1 bytes/chars"
    );
}

#[test]
fn test_parse_jfif_thumbnail_dimensions() {
    let (remain, xdimension, ydimension) = parse_thumbnail_dimensions(&JFIF_DATA_1[16..]).unwrap();
    assert_eq!(remain, &[] as &[u8]);
    assert_eq!(xdimension, 0);
    assert_eq!(ydimension, 0);
}

#[test]
fn test_parse_jfif_density_not_enough_data() {
    let err = parse_density(&[]).unwrap_err();
    assert_eq!(
        err.all_to_string(),
        "JFIF parse failed: density units invalid ==> nom::Parsing requires 1 bytes/chars"
    );
}

#[test]
fn test_parse_jfif_density() {
    let (remain, density, xdensity, ydensity) = parse_density(&JFIF_DATA_1[11..]).unwrap();
    assert_eq!(remain, &JFIF_DATA_1[16..]);
    assert_eq!(density, DensityUnit::PixelsPerInch);
    assert_eq!(xdensity, 72);
    assert_eq!(ydensity, 72);
}

#[test]
fn test_parse_jfif_version_not_enough_data() {
    let err = parse_version(&[]).unwrap_err();
    assert_eq!(
        err.all_to_string(),
        "JFIF parse failed: version invalid ==> nom::Parsing requires 1 bytes/chars"
    );
}

#[test]
fn test_parse_jfif_version() {
    let (remain, major, minor) = parse_version(&JFIF_DATA_1[9..]).unwrap();
    assert_eq!(remain, &JFIF_DATA_1[11..]);
    assert_eq!(major, 1);
    assert_eq!(minor, 2);
}

#[test]
fn test_parse_jfif_header_not_enough_data() {
    let err = parse_header(&[]).unwrap_err();
    assert_eq!(
        err.all_to_string(),
        "JFIF parse failed: identifier invalid ==> nom::Parsing requires 4 bytes/chars"
    );
}

#[test]
fn test_parse_jfif_header() {
    let (remain, id) = parse_header(&JFIF_DATA_1[4..]).unwrap();
    assert_eq!(remain, &JFIF_DATA_1[9..]);
    assert_eq!(id, JFIF_DATA_1[4..8]);
}

#[test]
fn jfif_density_unit_unknown_is_refused() {
    let mut data = JFIF_DATA_1[4..].to_vec();
    data[7] = 0x03;
    let err = Jfif::parse(&data).unwrap_err();
    assert_eq!(*err.kind(), JfifErrorKind::Parse);
    assert_eq!(err.to_string(), "JFIF parse failed: density units unknown [03]");
}

#[test]
fn jfif_thumbnail_is_refused() {
    let mut data = JFIF_DATA_1[4..].to_vec();
    data[12] = 0x01;
    data[13] = 0x01;
    data.extend_from_slice(&[0x10, 0x20, 0x30]);
    let err = Jfif::parse(&data).unwrap_err();
    assert_eq!(*err.kind(), JfifErrorKind::Parse);
    assert_eq!(err.to_string(), "JFIF parse failed: thumbnail invalid [10, 20, 30]");

    // One dimension of zero means that there is no thumbnail.
    data[13] = 0x00;
    let jfif = Jfif::parse(&data).unwrap();
    assert_eq!(jfif.x_dimension, 1);
    assert_eq!(jfif.y_dimension, 0);
    assert_eq!(jfif.thumbnail, None);
}

#[test]
fn jfif_wrong_identifier_is_not_a_short_input() {
    let err = Jfif::parse(&[0x4A, 0x46, 0x58]).unwrap_err();
    assert_eq!(*err.kind(), JfifErrorKind::Parse);
    let err = Jfif::parse(&[0x4A, 0x46, 0x49]).unwrap_err();
    assert_eq!(*err.kind(), JfifErrorKind::Truncated);
    assert_eq!(err.source_to_string(), "nom::Parsing requires 1 bytes/chars");
}

#[test]
fn jfif_every_short_payload_is_truncated() {
    let data = &JFIF_DATA_1[4..];
    for n in 0..data.len() {
        let err = Jfif::parse(&data[..n]).unwrap_err();
        assert_eq!(*err.kind(), JfifErrorKind::Truncated, "at {}", n);
    }
    assert!(Jfif::parse(data).is_ok());
}

#[test]
fn density_unit_names() {
    assert_eq!(DensityUnit::from(0), DensityUnit::NoUnit);
    assert_eq!(DensityUnit::from(2), DensityUnit::PixelsPerCm);
    assert_eq!(DensityUnit::from(9), DensityUnit::Unknown);
    assert_eq!(DensityUnit::PixelsPerInch.to_string(), "inch");
    assert_eq!(DensityUnit::NoUnit.to_string(), "none");
}
