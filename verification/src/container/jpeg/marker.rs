//! The markers of a JPEG stream: two bytes, the first of which is `0xFF`.

use vstd::prelude::*;
use vstd::string::*;

verus! {

/// The first byte of every marker.
pub const PREFIX: u8 = 0xFF;

/// Start of image: the first two bytes of every JPEG stream.
pub const HEADER: [u8; 2] = [0xFF, 0xD8];

/// Start of frame.
pub const SOF: [u8; 2] = [0xFF, 0xC0];

/// Define Huffman table.
pub const DHT: [u8; 2] = [0xFF, 0xC4];

/// End of image.
pub const EOI: [u8; 2] = [0xFF, 0xD9];

/// Start of scan: the image data follows.
pub const SOS: [u8; 2] = [0xFF, 0xDA];

/// Define quantization table.
pub const DQT: [u8; 2] = [0xFF, 0xDB];

/// Define restart interval.
pub const DRI: [u8; 2] = [0xFF, 0xDD];

/// The segment of the JFIF header.
pub const APP0: [u8; 2] = [0xFF, 0xE0];

/// The segment of the Exif block.
pub const APP1: [u8; 2] = [0xFF, 0xE1];

/// The segment of the Canon camera image file format.
pub const APP2: [u8; 2] = [0xFF, 0xE2];

/// The segment of the still picture interchange file format.
pub const APP8: [u8; 2] = [0xFF, 0xE8];

/// Whether the marker with the second byte `number` starts a segment that
/// holds a length and a payload.
pub open spec fn has_payload(number: u8) -> bool {
    number == 0xE0 || number == 0xE1 || number == 0xDB || number == 0xC0 || number == 0xC4
        || number == 0xDD
}

/// Whether the marker with the second byte `number` starts a segment that
/// carries metadata: the JFIF header or the Exif block.
pub open spec fn is_metadata(number: u8) -> bool {
    number == 0xE0 || number == 0xE1
}

/// The name of the marker with the second byte `number`.
pub open spec fn marker_name(number: u8) -> Seq<char> {
    if number == 0xC0 {
        "Start of Frame"@
    } else if number == 0xC4 {
        "Define Huffman Table"@
    } else if number == 0xD9 {
        "End of Image Data"@
    } else if number == 0xDA {
        "Start of Scan"@
    } else if number == 0xDB {
        "Define Quantinization Table"@
    } else if number == 0xDD {
        "Define Restart Interval"@
    } else if number == 0xE0 {
        "JFIF Marker Segment"@
    } else if number == 0xE1 {
        "Exif Marker Segment"@
    } else if number == 0xE2 {
        "CIFF Canon Camera Image File Format"@
    } else if number == 0xE8 {
        "SPIFF Still Picture Interchange File Format"@
    } else {
        "Unknown marker"@
    }
}

/// The name of a marker; that of an unknown marker where the first byte is
/// not `0xFF`.
pub fn to_string(marker: &[u8; 2]) -> (r: String)
    ensures
        r@ == if marker@[0] == 0xFF {
            marker_name(marker@[1])
        } else {
            "Unknown marker"@
        },
{
    if marker[0] != 0xFF {
        return String::from_str("Unknown marker");
    }
    match marker[1] {
        0xC0 => String::from_str("Start of Frame"),
        0xC4 => String::from_str("Define Huffman Table"),
        0xD9 => String::from_str("End of Image Data"),
        0xDA => String::from_str("Start of Scan"),
        0xDB => String::from_str("Define Quantinization Table"),
        0xDD => String::from_str("Define Restart Interval"),
        0xE0 => String::from_str("JFIF Marker Segment"),
        0xE1 => String::from_str("Exif Marker Segment"),
        0xE2 => String::from_str("CIFF Canon Camera Image File Format"),
        0xE8 => String::from_str("SPIFF Still Picture Interchange File Format"),
        _ => String::from_str("Unknown marker"),
    }
}

} // verus!
