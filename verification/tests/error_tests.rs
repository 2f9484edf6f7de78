use libmeta::combinators::NomError;
use libmeta::errors::{
    BaseError, CastError, ContextError, DataError, DataErrorKind, ExifError, ExifErrorKind,
    FileTypeError, JfifError, JfifErrorKind, JpegError, JpegErrorKind, MetaError, MetaErrorKind,
    ParseError,
};
use nom::error::{ErrorKind, ParseError as NomParseError};
use std::io;

fn jpeg_error_as_result() -> Result<(), JpegError> {
    Err(JpegError::parse(": invalid").with_data(&[0x00, 0x01]))
}

#[test]
fn cast_test_cast_error() {
    assert_eq!(CastError::new("foo").to_string(), "downcast failed for foo");
}

#[test]
fn test_context_error() {
    let source = io::Error::from(io::ErrorKind::NotFound);
    assert_eq!(
        ContextError::new("io::Error: ", &source.to_string()).to_string(),
        "io::Error: entity not found"
    );
}

#[test]
fn data_test_cast_error() {
    let err = DataError::new(DataErrorKind::Downcast).with_msg(": to u16").with_data(&[0x0A]);
    assert_eq!(err.to_string(), "downcast failed: to u16 [0a]");
    assert_eq!(DataError::new(DataErrorKind::Ascii).to_string(), "ascii conversion failed");
}

#[test]
fn test_metaerror() {
    let err = FileTypeError::new("image.bin", MetaError::unknown_header(&[0x00, 0x01]));
    assert_eq!(err.to_string(), "unknown file type image.bin");
    assert_eq!(err.source_to_string(), "Meta unknown header [00, 01]");
}

#[test]
fn test_jpeg_use_as_result() {
    assert_eq!(
        jpeg_error_as_result().unwrap_err().to_string(),
        "JPEG parse failed: invalid [00, 01]"
    );
}

#[test]
fn test_segment_marker_invalid_with_data_and_source() {
    let source: nom::error::Error<i32> = nom::error::Error::from_error_kind(1, ErrorKind::Tag);
    let err = JpegError::parse(": segment marker invalid")
        .with_data(&[0x00, 0x01])
        .with_source("nom::", ContextError::new("", &source.to_string()));
    assert_eq!(err.to_string(), "JPEG parse failed: segment marker invalid [00, 01]");
    assert_eq!(err.source_to_string(), "nom::error Tag at: 1");
}

#[test]
fn test_segment_marker_invalid_with_data_and_io_source() {
    let err = JpegError::parse(": segment marker invalid")
        .with_data(&[0x00, 0x01])
        .with_io_source(io::Error::from(io::ErrorKind::NotFound));
    assert_eq!(err.to_string(), "JPEG parse failed: segment marker invalid [00, 01]");
    if let Some(err) = err.source {
        assert_eq!(err.to_string(), "io::Error: entity not found");
    }
}

#[test]
fn meta_test_unknown_header() {
    assert_eq!(
        MetaError::unknown_header(&[0xFF, 0xD8]).to_string(),
        "Meta unknown header [ff, d8]"
    );
}

#[test]
fn parse_test_unknown_header() {
    assert_eq!(ParseError::unknown_header(&[0xFF, 0xD8]).to_string(), "unknown header [ff, d8]");
}

#[test]
fn parse_error_prints_bytes_without_padding() {
    assert_eq!(ParseError::unknown_header(&[0xFF, 0x00]).to_string(), "unknown header [ff, 0]");
    assert_eq!(ParseError::invalid_jpeg_marker(&[0x0A]).to_string(), "unknown header [a]");
    let err = ParseError::read(io::Error::from(io::ErrorKind::NotFound));
    assert_eq!(err.to_string(), "read error: entity not found");
    assert_eq!(err.source_to_string(), "entity not found");
    let err = ParseError::read_failed("disk gone".to_string());
    assert!(err.data.is_empty());
    assert_eq!(err.all_to_string(), "read error: disk gone ==> disk gone");
}

#[test]
fn nom_source_of_a_short_input_makes_the_error_truncated() {
    let short = JpegError::parse(": segment length").with_nom_source(NomError::Incomplete { needed: 2 });
    assert_eq!(short.kind, JpegErrorKind::Truncated);
    assert_eq!(short.to_string(), "JPEG truncated: segment length");
    assert_eq!(short.source_to_string(), "nom::Parsing requires 2 bytes/chars");

    let wrong = JpegError::parse(": segment marker")
        .with_nom_source(NomError::Mismatch { input: vec![0x00, 0x10] });
    assert_eq!(wrong.kind, JpegErrorKind::Parse);
    assert_eq!(wrong.source_to_string(), "nom::Parsing Error: Error { input: [0, 16], code: Tag }");

    let short = ExifError::parse(": IFD offset").with_nom_source(NomError::Incomplete { needed: 3 });
    assert_eq!(*short.kind(), ExifErrorKind::Truncated);
    assert_eq!(short.to_string(), "Exif parse failed: IFD offset");

    let short = JfifError::parse(": version invalid").with_nom_source(NomError::Incomplete { needed: 0 });
    assert_eq!(*short.kind(), JfifErrorKind::Truncated);
    assert_eq!(short.source_to_string(), "nom::Parsing requires more data");
}

#[test]
fn error_kinds_print_their_lead() {
    assert_eq!(JpegError::operation(": find").to_string(), "JPEG operation failed: find");
    assert_eq!(JpegError::read_failed(": header").to_string(), "JPEG read failed: header");
    assert_eq!(JpegError::truncated().to_string(), "JPEG truncated");
    assert_eq!(ExifError::new().to_string(), "Exif parse failed");
    assert_eq!(ExifError::offset_zero().to_string(), "Exif parse failed: Offset is zero");
    assert_eq!(JfifError::new(JfifErrorKind::Parse).to_string(), "JFIF parse failed");
    assert_eq!(ExifError::parse(": x").with_data(&[1, 2]).data(), Some(&[1u8, 2u8][..]));
    assert_eq!(JfifError::parse(": x").data(), None);
}

#[test]
fn wrapped_errors_print_as_a_chain() {
    let inner = ExifError::parse(": TIFF endian").with_nom_source(NomError::Incomplete { needed: 1 });
    let outer = JpegError::parse(": exif parsing").wrap(inner);
    assert_eq!(
        outer.all_to_string(),
        "JPEG parse failed: exif parsing ==> Exif parse failed: TIFF endian ==> nom::Parsing requires 1 bytes/chars"
    );
    let top = MetaError::from_jpeg(outer);
    assert_eq!(top.kind, MetaErrorKind::Jpeg);
    assert_eq!(top.to_string(), "Meta jpeg parse failed");
    assert_eq!(
        top.source_to_string(),
        "JPEG parse failed: exif parsing ==> Exif parse failed: TIFF endian ==> nom::Parsing requires 1 bytes/chars"
    );
    let io = MetaError::from_io(io::Error::from(io::ErrorKind::NotFound));
    assert_eq!(io.kind, MetaErrorKind::Read);
    assert_eq!(io.all_to_string(), "Meta file read failed ==> io::Error: entity not found");
    let read = JpegError::from_io(io::Error::from(io::ErrorKind::NotFound));
    assert_eq!(read.kind, JpegErrorKind::ReadFailed);
    assert_eq!(read.source_to_string(), "entity not found");
}
