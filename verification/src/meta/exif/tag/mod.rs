//! The tags of the fields of a directory, and the values of those tags that
//! stand for one of a few choices.

pub mod contrast;
pub mod gain;
pub mod metering;
pub mod orientation;
pub mod rational;
pub mod resolution_unit;
pub mod saturation;
pub mod scene;
pub mod sharpness;
pub mod y_cb_cr_coefficients;

pub use contrast::Contrast;
pub use gain::Gain;
pub use metering::MeteringMode;
pub use orientation::Orientation;
pub use rational::Rational;
pub use resolution_unit::ResolutionUnit;
pub use saturation::Saturation;
pub use scene::Scene;
pub use sharpness::Sharpness;
pub use y_cb_cr_coefficients::YCbCrPositioning;

use vstd::prelude::*;
use vstd::string::*;
use crate::text::{digit, digit_of};

verus! {

/// What a field of a directory holds. A tag that the library does not know
/// keeps its number.
#[derive(Debug, Clone, Copy, PartialEq, Eq, PartialOrd, Ord, Structural)]
pub enum Tag {
    /// Image width.
    ImageWidth,
    /// Image height.
    ImageHeight,
    /// Number of bits per sample.
    BitsPerSample,
    /// Compression scheme used on the image data.
    Compression,
    /// Photometric interpretation.
    PhotometricInterpretation,
    /// Describes the image.
    ImageDescription,
    /// Make.
    Make,
    /// Model.
    Model,
    /// Strip offsets.
    StripOffsets,
    /// Orientation.
    Orientation,
    /// The number of separate planes in this image.
    SamplesPerPixel,
    /// Resolution of the X axis, often 72/1, which is 72 pixels per inch.
    XResolution,
    /// Resolution of the Y axis, often 72/1, which is 72 pixels per inch.
    YResolution,
    /// Resolution Unit.
    ResolutionUnit,
    /// Software.
    Software,
    /// Date and time of image was last modified.
    DateTime,
    /// Defines chromaticity of white point of the image.
    WhitePoint,
    /// Defines chromaticity of the primaries of the image.
    PrimaryChromaticities,
    /// Thumbnail offset.
    ThumbnailOffset,
    /// Thumbnail length in bytes.
    ThumbnailLength,
    /// Y Cb Cr Coefficients.
    YCbCrCoefficients,
    /// Y Cb Cr Positioning.
    YCbCrPositioning,
    /// Reference Black White.
    ReferenceBlackWhite,
    /// Show copyright information.
    Copyright,
    /// Exposure time (reciprocol of shutter speed).
    ExposureTime,
    /// The actual F-number(F-stop) of lens when the image was taken.
    FNumber,
    /// Exif Offset.
    ExifSubIfdOffset,
    /// Exposure program that the camera used when image was taken.
    ExposureProgram,
    /// GPS Offset.
    GpsSubIfdOffset,
    /// CCD sensitivity equivalent to Ag-Hr film speedrate.
    IsoSpeedRatings,
    /// Exif version number.
    ExifVersion,
    /// Date and time of original image taken.
    DateTimeOriginal,
    /// Date and time of image digitized.
    DateTimeDigitized,
    /// Component Configuration.
    ComponentConfiguration,
    /// The average compression ratio of JPEG.
    CompressedBitsPerPixel,
    /// Shutter speed.
    ShutterSpeedValue,
    /// The actual aperture value of lens when the image was taken.
    ApexApertureValue,
    /// Brightness of taken subject, unit is EV.
    BrightnessValue,
    /// Exposure bias value of taking picture.
    ExposureBiasValue,
    /// Maximum aperture value of lens.
    MaxApertureValue,
    /// Distance to focus point, unit is meter.
    SubjectDistance,
    /// Exposure metering method.
    MeteringMode,
    /// Light source, actually this means white balance setting.
    LightSource,
    /// Flash status.
    Flash,
    /// Focal length of lens used to take image. Unit is millimeter.
    FocalLength,
    /// Maker dependent internal data.
    MakerNote,
    /// Stores user comments.
    UserComment,
    /// Stores the XP comment.
    XPComment,
    /// Stores the XP author.
    XPAuthor,
    /// Stores the XP keywords.
    XPKeywords,
    /// Stores the XP subject.
    XPSubject,
    /// Stores the FlashPix version.
    FlashPixVersion,
    /// Color space information.
    ColorSpace,
    /// Width of main image.
    ExifImageWidth,
    /// Height of main image.
    ExifImageHeight,
    /// If this the camera can record audio data with image, shows name of audio data.
    RelatedSoundFile,
    /// Extension of "ExifR98", detail is unknown.
    ExifInteroperabilityOffset,
    /// CCD's pixel density.
    FocalPlaneXResolution,
    /// CCD's pixel density.
    FocalPlaneYResolution,
    /// Unit of FocalPlaneXResoluton/FocalPlaneYResolution.
    FocalPlaneResolutionUnit,
    /// Show type of image sensor unit.
    SensingMethod,
    /// File Source.
    FileSource,
    /// Scene Type.
    SceneType,
    /// Exposure Mode.
    ExposureMode,
    /// White balance.
    WhiteBalance,
    /// Digital zoom ratio.
    DigitalZoomRatio,
    /// Focal length in 35mm format.
    FocalLengthIn35mmFormat,
    /// Scene capture type.
    SceneCaptureType,
    /// Gain control.
    GainControl,
    /// Contrast.
    Contrast,
    /// Saturation.
    Saturation,
    /// Sharpness.
    Sharpness,
    /// Device setting description.
    DeviceSettingDescription,
    /// Subject distance range.
    SubjectDistanceRange,
    /// Unique image ID.
    ImageUniqueID,
    /// Camera owner name.
    OwnerName,
    /// Serial number.
    SerialNumber,
    /// Lens specification.
    LensSpecification,
    /// Lens make.
    LensMake,
    /// Lens model.
    LensModel,
    /// Lens serial number.
    LensSerialNumber,
    /// Title.
    Title,
    /// A tag that the library does not know, with its number.
    Raw(u16),
}

/// The tag that a number stands for.
pub open spec fn tag_of(val: u16) -> Tag {
    if val == 0x0100 {
        Tag::ImageWidth
    } else if val == 0x0101 {
        Tag::ImageHeight
    } else if val == 0x0102 {
        Tag::BitsPerSample
    } else if val == 0x0103 {
        Tag::Compression
    } else if val == 0x0106 {
        Tag::PhotometricInterpretation
    } else if val == 0x010E {
        Tag::ImageDescription
    } else if val == 0x010F {
        Tag::Make
    } else if val == 0x0110 {
        Tag::Model
    } else if val == 0x0111 {
        Tag::StripOffsets
    } else if val == 0x0112 {
        Tag::Orientation
    } else if val == 0x0115 {
        Tag::SamplesPerPixel
    } else if val == 0x011A {
        Tag::XResolution
    } else if val == 0x011B {
        Tag::YResolution
    } else if val == 0x0128 {
        Tag::ResolutionUnit
    } else if val == 0x0131 {
        Tag::Software
    } else if val == 0x0132 {
        Tag::DateTime
    } else if val == 0x013E {
        Tag::WhitePoint
    } else if val == 0x013F {
        Tag::PrimaryChromaticities
    } else if val == 0x0201 {
        Tag::ThumbnailOffset
    } else if val == 0x0202 {
        Tag::ThumbnailLength
    } else if val == 0x0211 {
        Tag::YCbCrCoefficients
    } else if val == 0x0213 {
        Tag::YCbCrPositioning
    } else if val == 0x0214 {
        Tag::ReferenceBlackWhite
    } else if val == 0x8298 {
        Tag::Copyright
    } else if val == 0x829A {
        Tag::ExposureTime
    } else if val == 0x829D {
        Tag::FNumber
    } else if val == 0x8769 {
        Tag::ExifSubIfdOffset
    } else if val == 0x8822 {
        Tag::ExposureProgram
    } else if val == 0x8825 {
        Tag::GpsSubIfdOffset
    } else if val == 0x8827 {
        Tag::IsoSpeedRatings
    } else if val == 0x9000 {
        Tag::ExifVersion
    } else if val == 0x9003 {
        Tag::DateTimeOriginal
    } else if val == 0x9004 {
        Tag::DateTimeDigitized
    } else if val == 0x9101 {
        Tag::ComponentConfiguration
    } else if val == 0x9102 {
        Tag::CompressedBitsPerPixel
    } else if val == 0x9201 {
        Tag::ShutterSpeedValue
    } else if val == 0x9202 {
        Tag::ApexApertureValue
    } else if val == 0x9203 {
        Tag::BrightnessValue
    } else if val == 0x9204 {
        Tag::ExposureBiasValue
    } else if val == 0x9205 {
        Tag::MaxApertureValue
    } else if val == 0x9206 {
        Tag::SubjectDistance
    } else if val == 0x9207 {
        Tag::MeteringMode
    } else if val == 0x9208 {
        Tag::LightSource
    } else if val == 0x9209 {
        Tag::Flash
    } else if val == 0x920A {
        Tag::FocalLength
    } else if val == 0x927C {
        Tag::MakerNote
    } else if val == 0x9286 {
        Tag::UserComment
    } else if val == 0x9288 {
        Tag::XPComment
    } else if val == 0x9291 {
        Tag::XPAuthor
    } else if val == 0x9292 {
        Tag::XPKeywords
    } else if val == 0x9293 {
        Tag::XPSubject
    } else if val == 0xA000 {
        Tag::FlashPixVersion
    } else if val == 0xA001 {
        Tag::ColorSpace
    } else if val == 0xA002 {
        Tag::ExifImageWidth
    } else if val == 0xA003 {
        Tag::ExifImageHeight
    } else if val == 0xA004 {
        Tag::RelatedSoundFile
    } else if val == 0xA005 {
        Tag::ExifInteroperabilityOffset
    } else if val == 0xA20E {
        Tag::FocalPlaneXResolution
    } else if val == 0xA20F {
        Tag::FocalPlaneYResolution
    } else if val == 0xA210 {
        Tag::FocalPlaneResolutionUnit
    } else if val == 0xA217 {
        Tag::SensingMethod
    } else if val == 0xA300 {
        Tag::FileSource
    } else if val == 0xA301 {
        Tag::SceneType
    } else if val == 0xA402 {
        Tag::ExposureMode
    } else if val == 0xA403 {
        Tag::WhiteBalance
    } else if val == 0xA404 {
        Tag::DigitalZoomRatio
    } else if val == 0xA405 {
        Tag::FocalLengthIn35mmFormat
    } else if val == 0xA406 {
        Tag::SceneCaptureType
    } else if val == 0xA407 {
        Tag::GainControl
    } else if val == 0xA408 {
        Tag::Contrast
    } else if val == 0xA409 {
        Tag::Saturation
    } else if val == 0xA40A {
        Tag::Sharpness
    } else if val == 0xA40B {
        Tag::DeviceSettingDescription
    } else if val == 0xA40C {
        Tag::SubjectDistanceRange
    } else if val == 0xA420 {
        Tag::ImageUniqueID
    } else if val == 0xA430 {
        Tag::OwnerName
    } else if val == 0xA431 {
        Tag::SerialNumber
    } else if val == 0xA432 {
        Tag::LensSpecification
    } else if val == 0xA433 {
        Tag::LensMake
    } else if val == 0xA434 {
        Tag::LensModel
    } else if val == 0xA435 {
        Tag::LensSerialNumber
    } else if val == 0xA436 {
        Tag::Title
    } else {
        Tag::Raw(val)
    }
}

/// The number that a tag stands for.
pub open spec fn code_of(tag: Tag) -> u16 {
    match tag {
        Tag::ImageWidth => 0x0100,
        Tag::ImageHeight => 0x0101,
        Tag::BitsPerSample => 0x0102,
        Tag::Compression => 0x0103,
        Tag::PhotometricInterpretation => 0x0106,
        Tag::ImageDescription => 0x010E,
        Tag::Make => 0x010F,
        Tag::Model => 0x0110,
        Tag::StripOffsets => 0x0111,
        Tag::Orientation => 0x0112,
        Tag::SamplesPerPixel => 0x0115,
        Tag::XResolution => 0x011A,
        Tag::YResolution => 0x011B,
        Tag::ResolutionUnit => 0x0128,
        Tag::Software => 0x0131,
        Tag::DateTime => 0x0132,
        Tag::WhitePoint => 0x013E,
        Tag::PrimaryChromaticities => 0x013F,
        Tag::ThumbnailOffset => 0x0201,
        Tag::ThumbnailLength => 0x0202,
        Tag::YCbCrCoefficients => 0x0211,
        Tag::YCbCrPositioning => 0x0213,
        Tag::ReferenceBlackWhite => 0x0214,
        Tag::Copyright => 0x8298,
        Tag::ExposureTime => 0x829A,
        Tag::FNumber => 0x829D,
        Tag::ExifSubIfdOffset => 0x8769,
        Tag::ExposureProgram => 0x8822,
        Tag::GpsSubIfdOffset => 0x8825,
        Tag::IsoSpeedRatings => 0x8827,
        Tag::ExifVersion => 0x9000,
        Tag::DateTimeOriginal => 0x9003,
        Tag::DateTimeDigitized => 0x9004,
        Tag::ComponentConfiguration => 0x9101,
        Tag::CompressedBitsPerPixel => 0x9102,
        Tag::ShutterSpeedValue => 0x9201,
        Tag::ApexApertureValue => 0x9202,
        Tag::BrightnessValue => 0x9203,
        Tag::ExposureBiasValue => 0x9204,
        Tag::MaxApertureValue => 0x9205,
        Tag::SubjectDistance => 0x9206,
        Tag::MeteringMode => 0x9207,
        Tag::LightSource => 0x9208,
        Tag::Flash => 0x9209,
        Tag::FocalLength => 0x920A,
        Tag::MakerNote => 0x927C,
        Tag::UserComment => 0x9286,
        Tag::XPComment => 0x9288,
        Tag::XPAuthor => 0x9291,
        Tag::XPKeywords => 0x9292,
        Tag::XPSubject => 0x9293,
        Tag::FlashPixVersion => 0xA000,
        Tag::ColorSpace => 0xA001,
        Tag::ExifImageWidth => 0xA002,
        Tag::ExifImageHeight => 0xA003,
        Tag::RelatedSoundFile => 0xA004,
        Tag::ExifInteroperabilityOffset => 0xA005,
        Tag::FocalPlaneXResolution => 0xA20E,
        Tag::FocalPlaneYResolution => 0xA20F,
        Tag::FocalPlaneResolutionUnit => 0xA210,
        Tag::SensingMethod => 0xA217,
        Tag::FileSource => 0xA300,
        Tag::SceneType => 0xA301,
        Tag::ExposureMode => 0xA402,
        Tag::WhiteBalance => 0xA403,
        Tag::DigitalZoomRatio => 0xA404,
        Tag::FocalLengthIn35mmFormat => 0xA405,
        Tag::SceneCaptureType => 0xA406,
        Tag::GainControl => 0xA407,
        Tag::Contrast => 0xA408,
        Tag::Saturation => 0xA409,
        Tag::Sharpness => 0xA40A,
        Tag::DeviceSettingDescription => 0xA40B,
        Tag::SubjectDistanceRange => 0xA40C,
        Tag::ImageUniqueID => 0xA420,
        Tag::OwnerName => 0xA430,
        Tag::SerialNumber => 0xA431,
        Tag::LensSpecification => 0xA432,
        Tag::LensMake => 0xA433,
        Tag::LensModel => 0xA434,
        Tag::LensSerialNumber => 0xA435,
        Tag::Title => 0xA436,
        Tag::Raw(val) => val,
    }
}

/// The name of a tag that the library knows.
pub open spec fn known_name(tag: Tag) -> Seq<char> {
    match tag {
        Tag::ImageWidth => "Image Width"@,
        Tag::ImageHeight => "Image Height"@,
        Tag::BitsPerSample => "Bits Per Sample"@,
        Tag::Compression => "Compression"@,
        Tag::PhotometricInterpretation => "Photometric Interpretation"@,
        Tag::ImageDescription => "Image Description"@,
        Tag::Make => "Make"@,
        Tag::Model => "Model"@,
        Tag::StripOffsets => "Strip Offsets"@,
        Tag::Orientation => "Orientation"@,
        Tag::SamplesPerPixel => "Samples Per Pixel"@,
        Tag::XResolution => "X Resolution"@,
        Tag::YResolution => "Y Resolution"@,
        Tag::ResolutionUnit => "Resolution Unit"@,
        Tag::Software => "Software"@,
        Tag::DateTime => "Date Time"@,
        Tag::WhitePoint => "White Point"@,
        Tag::PrimaryChromaticities => "Primary Chromaticities"@,
        Tag::ThumbnailOffset => "Thumbnail Offset"@,
        Tag::ThumbnailLength => "Thumbnail Length"@,
        Tag::YCbCrCoefficients => "Y Cb Cr Coefficients"@,
        Tag::YCbCrPositioning => "Y Cb Cr Positioning"@,
        Tag::ReferenceBlackWhite => "Reference Black White"@,
        Tag::Copyright => "Copyright"@,
        Tag::ExposureTime => "Exposure Time"@,
        Tag::FNumber => "F Number"@,
        Tag::ExifSubIfdOffset => "Exif Offset"@,
        Tag::ExposureProgram => "Exposure Program"@,
        Tag::GpsSubIfdOffset => "GPS Offset"@,
        Tag::IsoSpeedRatings => "ISO Speed Ratings"@,
        Tag::ExifVersion => "Exif Version"@,
        Tag::DateTimeOriginal => "Date Time Original"@,
        Tag::DateTimeDigitized => "Date Time Digitized"@,
        Tag::ComponentConfiguration => "Component Configuration"@,
        Tag::CompressedBitsPerPixel => "Compressed Bits Per Pixel"@,
        Tag::ShutterSpeedValue => "Shutter Speed Value"@,
        Tag::ApexApertureValue => "Apex Aperture Value"@,
        Tag::BrightnessValue => "Brightness Value"@,
        Tag::ExposureBiasValue => "Exposure Bias Value"@,
        Tag::MaxApertureValue => "Max Aperture Value"@,
        Tag::SubjectDistance => "Subject Distance"@,
        Tag::MeteringMode => "Metering Mode"@,
        Tag::LightSource => "Light Source"@,
        Tag::Flash => "Flash"@,
        Tag::FocalLength => "Focal Length"@,
        Tag::MakerNote => "Maker Note"@,
        Tag::UserComment => "User Comment"@,
        Tag::XPComment => "XP Comment"@,
        Tag::XPAuthor => "XP Author"@,
        Tag::XPKeywords => "XP Keywords"@,
        Tag::XPSubject => "XP Subject"@,
        Tag::FlashPixVersion => "FlashPix Version"@,
        Tag::ColorSpace => "Color Space"@,
        Tag::ExifImageWidth => "Exif Image Width"@,
        Tag::ExifImageHeight => "Exif Image Height"@,
        Tag::RelatedSoundFile => "Related Sound File"@,
        Tag::ExifInteroperabilityOffset => "Exif Interoperability Offset"@,
        Tag::FocalPlaneXResolution => "Focal Plane X Resolution"@,
        Tag::FocalPlaneYResolution => "Focal Plane Y Resolution"@,
        Tag::FocalPlaneResolutionUnit => "Focal Plane Resolution Unit"@,
        Tag::SensingMethod => "Sensing Method"@,
        Tag::FileSource => "File Source"@,
        Tag::SceneType => "Scene Type"@,
        Tag::ExposureMode => "Exposure Mode"@,
        Tag::WhiteBalance => "White Balance"@,
        Tag::DigitalZoomRatio => "Digital Zoom Ratio"@,
        Tag::FocalLengthIn35mmFormat => "Focal Length In 35mm Format"@,
        Tag::SceneCaptureType => "Scene Capture Type"@,
        Tag::GainControl => "Gain Control"@,
        Tag::Contrast => "Contrast"@,
        Tag::Saturation => "Saturation"@,
        Tag::Sharpness => "Sharpness"@,
        Tag::DeviceSettingDescription => "Device Setting Description"@,
        Tag::SubjectDistanceRange => "Subject Distance Range"@,
        Tag::ImageUniqueID => "Image Unique ID"@,
        Tag::OwnerName => "Owner Name"@,
        Tag::SerialNumber => "Serial Number"@,
        Tag::LensSpecification => "Lens Specification"@,
        Tag::LensMake => "Lens Make"@,
        Tag::LensModel => "Lens Model"@,
        Tag::LensSerialNumber => "Lens Serial Number"@,
        Tag::Title => "Title"@,
        Tag::Raw(_) => "Unknown"@,
    }
}

/// The four hexadecimal digits of a number of sixteen bits.
pub open spec fn hex4(val: u16) -> Seq<char> {
    seq![
        digit_of(val as int / 4096),
        digit_of(val as int / 256 % 16),
        digit_of(val as int / 16 % 16),
        digit_of(val as int % 16),
    ]
}

/// The name of a tag: that of a known tag, and `Unknown(0x` with the four
/// hexadecimal digits of the number and `)` for any other.
pub open spec fn name_of(tag: Tag) -> Seq<char> {
    match tag {
        Tag::Raw(val) => "Unknown(0x"@ + hex4(val) + ")"@,
        _ => known_name(tag),
    }
}

impl Tag {
    /// The tag that a number stands for.
    pub fn from(val: u16) -> (r: Tag)
        ensures
            r == tag_of(val),
    {
        match val {
            0x0100 => Tag::ImageWidth,
            0x0101 => Tag::ImageHeight,
            0x0102 => Tag::BitsPerSample,
            0x0103 => Tag::Compression,
            0x0106 => Tag::PhotometricInterpretation,
            0x010E => Tag::ImageDescription,
            0x010F => Tag::Make,
            0x0110 => Tag::Model,
            0x0111 => Tag::StripOffsets,
            0x0112 => Tag::Orientation,
            0x0115 => Tag::SamplesPerPixel,
            0x011A => Tag::XResolution,
            0x011B => Tag::YResolution,
            0x0128 => Tag::ResolutionUnit,
            0x0131 => Tag::Software,
            0x0132 => Tag::DateTime,
            0x013E => Tag::WhitePoint,
            0x013F => Tag::PrimaryChromaticities,
            0x0201 => Tag::ThumbnailOffset,
            0x0202 => Tag::ThumbnailLength,
            0x0211 => Tag::YCbCrCoefficients,
            0x0213 => Tag::YCbCrPositioning,
            0x0214 => Tag::ReferenceBlackWhite,
            0x8298 => Tag::Copyright,
            0x829A => Tag::ExposureTime,
            0x829D => Tag::FNumber,
            0x8769 => Tag::ExifSubIfdOffset,
            0x8822 => Tag::ExposureProgram,
            0x8825 => Tag::GpsSubIfdOffset,
            0x8827 => Tag::IsoSpeedRatings,
            0x9000 => Tag::ExifVersion,
            0x9003 => Tag::DateTimeOriginal,
            0x9004 => Tag::DateTimeDigitized,
            0x9101 => Tag::ComponentConfiguration,
            0x9102 => Tag::CompressedBitsPerPixel,
            0x9201 => Tag::ShutterSpeedValue,
            0x9202 => Tag::ApexApertureValue,
            0x9203 => Tag::BrightnessValue,
            0x9204 => Tag::ExposureBiasValue,
            0x9205 => Tag::MaxApertureValue,
            0x9206 => Tag::SubjectDistance,
            0x9207 => Tag::MeteringMode,
            0x9208 => Tag::LightSource,
            0x9209 => Tag::Flash,
            0x920A => Tag::FocalLength,
            0x927C => Tag::MakerNote,
            0x9286 => Tag::UserComment,
            0x9288 => Tag::XPComment,
            0x9291 => Tag::XPAuthor,
            0x9292 => Tag::XPKeywords,
            0x9293 => Tag::XPSubject,
            0xA000 => Tag::FlashPixVersion,
            0xA001 => Tag::ColorSpace,
            0xA002 => Tag::ExifImageWidth,
            0xA003 => Tag::ExifImageHeight,
            0xA004 => Tag::RelatedSoundFile,
            0xA005 => Tag::ExifInteroperabilityOffset,
            0xA20E => Tag::FocalPlaneXResolution,
            0xA20F => Tag::FocalPlaneYResolution,
            0xA210 => Tag::FocalPlaneResolutionUnit,
            0xA217 => Tag::SensingMethod,
            0xA300 => Tag::FileSource,
            0xA301 => Tag::SceneType,
            0xA402 => Tag::ExposureMode,
            0xA403 => Tag::WhiteBalance,
            0xA404 => Tag::DigitalZoomRatio,
            0xA405 => Tag::FocalLengthIn35mmFormat,
            0xA406 => Tag::SceneCaptureType,
            0xA407 => Tag::GainControl,
            0xA408 => Tag::Contrast,
            0xA409 => Tag::Saturation,
            0xA40A => Tag::Sharpness,
            0xA40B => Tag::DeviceSettingDescription,
            0xA40C => Tag::SubjectDistanceRange,
            0xA420 => Tag::ImageUniqueID,
            0xA430 => Tag::OwnerName,
            0xA431 => Tag::SerialNumber,
            0xA432 => Tag::LensSpecification,
            0xA433 => Tag::LensMake,
            0xA434 => Tag::LensModel,
            0xA435 => Tag::LensSerialNumber,
            0xA436 => Tag::Title,
            _ => Tag::Raw(val),
        }
    }

    /// The number that the tag stands for.
    pub fn code(&self) -> (r: u16)
        ensures
            r == code_of(*self),
    {
        match self {
            Tag::ImageWidth => 0x0100,
            Tag::ImageHeight => 0x0101,
            Tag::BitsPerSample => 0x0102,
            Tag::Compression => 0x0103,
            Tag::PhotometricInterpretation => 0x0106,
            Tag::ImageDescription => 0x010E,
            Tag::Make => 0x010F,
            Tag::Model => 0x0110,
            Tag::StripOffsets => 0x0111,
            Tag::Orientation => 0x0112,
            Tag::SamplesPerPixel => 0x0115,
            Tag::XResolution => 0x011A,
            Tag::YResolution => 0x011B,
            Tag::ResolutionUnit => 0x0128,
            Tag::Software => 0x0131,
            Tag::DateTime => 0x0132,
            Tag::WhitePoint => 0x013E,
            Tag::PrimaryChromaticities => 0x013F,
            Tag::ThumbnailOffset => 0x0201,
            Tag::ThumbnailLength => 0x0202,
            Tag::YCbCrCoefficients => 0x0211,
            Tag::YCbCrPositioning => 0x0213,
            Tag::ReferenceBlackWhite => 0x0214,
            Tag::Copyright => 0x8298,
            Tag::ExposureTime => 0x829A,
            Tag::FNumber => 0x829D,
            Tag::ExifSubIfdOffset => 0x8769,
            Tag::ExposureProgram => 0x8822,
            Tag::GpsSubIfdOffset => 0x8825,
            Tag::IsoSpeedRatings => 0x8827,
            Tag::ExifVersion => 0x9000,
            Tag::DateTimeOriginal => 0x9003,
            Tag::DateTimeDigitized => 0x9004,
            Tag::ComponentConfiguration => 0x9101,
            Tag::CompressedBitsPerPixel => 0x9102,
            Tag::ShutterSpeedValue => 0x9201,
            Tag::ApexApertureValue => 0x9202,
            Tag::BrightnessValue => 0x9203,
            Tag::ExposureBiasValue => 0x9204,
            Tag::MaxApertureValue => 0x9205,
            Tag::SubjectDistance => 0x9206,
            Tag::MeteringMode => 0x9207,
            Tag::LightSource => 0x9208,
            Tag::Flash => 0x9209,
            Tag::FocalLength => 0x920A,
            Tag::MakerNote => 0x927C,
            Tag::UserComment => 0x9286,
            Tag::XPComment => 0x9288,
            Tag::XPAuthor => 0x9291,
            Tag::XPKeywords => 0x9292,
            Tag::XPSubject => 0x9293,
            Tag::FlashPixVersion => 0xA000,
            Tag::ColorSpace => 0xA001,
            Tag::ExifImageWidth => 0xA002,
            Tag::ExifImageHeight => 0xA003,
            Tag::RelatedSoundFile => 0xA004,
            Tag::ExifInteroperabilityOffset => 0xA005,
            Tag::FocalPlaneXResolution => 0xA20E,
            Tag::FocalPlaneYResolution => 0xA20F,
            Tag::FocalPlaneResolutionUnit => 0xA210,
            Tag::SensingMethod => 0xA217,
            Tag::FileSource => 0xA300,
            Tag::SceneType => 0xA301,
            Tag::ExposureMode => 0xA402,
            Tag::WhiteBalance => 0xA403,
            Tag::DigitalZoomRatio => 0xA404,
            Tag::FocalLengthIn35mmFormat => 0xA405,
            Tag::SceneCaptureType => 0xA406,
            Tag::GainControl => 0xA407,
            Tag::Contrast => 0xA408,
            Tag::Saturation => 0xA409,
            Tag::Sharpness => 0xA40A,
            Tag::DeviceSettingDescription => 0xA40B,
            Tag::SubjectDistanceRange => 0xA40C,
            Tag::ImageUniqueID => 0xA420,
            Tag::OwnerName => 0xA430,
            Tag::SerialNumber => 0xA431,
            Tag::LensSpecification => 0xA432,
            Tag::LensMake => 0xA433,
            Tag::LensModel => 0xA434,
            Tag::LensSerialNumber => 0xA435,
            Tag::Title => 0xA436,
            Tag::Raw(val) => *val,
        }
    }

    /// Whether the tag is of no use in a listing: the pointer to the Exif
    /// directory is.
    pub fn no_display(&self) -> (r: bool)
        ensures
            r == (*self == Tag::ExifSubIfdOffset),
    {
        match self {
            Tag::ExifSubIfdOffset => true,
            _ => false,
        }
    }

    /// The name of the tag.
    pub fn to_string(&self) -> (r: String)
        ensures
            r@ == name_of(*self),
    {
        match self {
            Tag::ImageWidth => String::from_str("Image Width"),
            Tag::ImageHeight => String::from_str("Image Height"),
            Tag::BitsPerSample => String::from_str("Bits Per Sample"),
            Tag::Compression => String::from_str("Compression"),
            Tag::PhotometricInterpretation => String::from_str("Photometric Interpretation"),
            Tag::ImageDescription => String::from_str("Image Description"),
            Tag::Make => String::from_str("Make"),
            Tag::Model => String::from_str("Model"),
            Tag::StripOffsets => String::from_str("Strip Offsets"),
            Tag::Orientation => String::from_str("Orientation"),
            Tag::SamplesPerPixel => String::from_str("Samples Per Pixel"),
            Tag::XResolution => String::from_str("X Resolution"),
            Tag::YResolution => String::from_str("Y Resolution"),
            Tag::ResolutionUnit => String::from_str("Resolution Unit"),
            Tag::Software => String::from_str("Software"),
            Tag::DateTime => String::from_str("Date Time"),
            Tag::WhitePoint => String::from_str("White Point"),
            Tag::PrimaryChromaticities => String::from_str("Primary Chromaticities"),
            Tag::ThumbnailOffset => String::from_str("Thumbnail Offset"),
            Tag::ThumbnailLength => String::from_str("Thumbnail Length"),
            Tag::YCbCrCoefficients => String::from_str("Y Cb Cr Coefficients"),
            Tag::YCbCrPositioning => String::from_str("Y Cb Cr Positioning"),
            Tag::ReferenceBlackWhite => String::from_str("Reference Black White"),
            Tag::Copyright => String::from_str("Copyright"),
            Tag::ExposureTime => String::from_str("Exposure Time"),
            Tag::FNumber => String::from_str("F Number"),
            Tag::ExifSubIfdOffset => String::from_str("Exif Offset"),
            Tag::ExposureProgram => String::from_str("Exposure Program"),
            Tag::GpsSubIfdOffset => String::from_str("GPS Offset"),
            Tag::IsoSpeedRatings => String::from_str("ISO Speed Ratings"),
            Tag::ExifVersion => String::from_str("Exif Version"),
            Tag::DateTimeOriginal => String::from_str("Date Time Original"),
            Tag::DateTimeDigitized => String::from_str("Date Time Digitized"),
            Tag::ComponentConfiguration => String::from_str("Component Configuration"),
            Tag::CompressedBitsPerPixel => String::from_str("Compressed Bits Per Pixel"),
            Tag::ShutterSpeedValue => String::from_str("Shutter Speed Value"),
            Tag::ApexApertureValue => String::from_str("Apex Aperture Value"),
            Tag::BrightnessValue => String::from_str("Brightness Value"),
            Tag::ExposureBiasValue => String::from_str("Exposure Bias Value"),
            Tag::MaxApertureValue => String::from_str("Max Aperture Value"),
            Tag::SubjectDistance => String::from_str("Subject Distance"),
            Tag::MeteringMode => String::from_str("Metering Mode"),
            Tag::LightSource => String::from_str("Light Source"),
            Tag::Flash => String::from_str("Flash"),
            Tag::FocalLength => String::from_str("Focal Length"),
            Tag::MakerNote => String::from_str("Maker Note"),
            Tag::UserComment => String::from_str("User Comment"),
            Tag::XPComment => String::from_str("XP Comment"),
            Tag::XPAuthor => String::from_str("XP Author"),
            Tag::XPKeywords => String::from_str("XP Keywords"),
            Tag::XPSubject => String::from_str("XP Subject"),
            Tag::FlashPixVersion => String::from_str("FlashPix Version"),
            Tag::ColorSpace => String::from_str("Color Space"),
            Tag::ExifImageWidth => String::from_str("Exif Image Width"),
            Tag::ExifImageHeight => String::from_str("Exif Image Height"),
            Tag::RelatedSoundFile => String::from_str("Related Sound File"),
            Tag::ExifInteroperabilityOffset => String::from_str("Exif Interoperability Offset"),
            Tag::FocalPlaneXResolution => String::from_str("Focal Plane X Resolution"),
            Tag::FocalPlaneYResolution => String::from_str("Focal Plane Y Resolution"),
            Tag::FocalPlaneResolutionUnit => String::from_str("Focal Plane Resolution Unit"),
            Tag::SensingMethod => String::from_str("Sensing Method"),
            Tag::FileSource => String::from_str("File Source"),
            Tag::SceneType => String::from_str("Scene Type"),
            Tag::ExposureMode => String::from_str("Exposure Mode"),
            Tag::WhiteBalance => String::from_str("White Balance"),
            Tag::DigitalZoomRatio => String::from_str("Digital Zoom Ratio"),
            Tag::FocalLengthIn35mmFormat => String::from_str("Focal Length In 35mm Format"),
            Tag::SceneCaptureType => String::from_str("Scene Capture Type"),
            Tag::GainControl => String::from_str("Gain Control"),
            Tag::Contrast => String::from_str("Contrast"),
            Tag::Saturation => String::from_str("Saturation"),
            Tag::Sharpness => String::from_str("Sharpness"),
            Tag::DeviceSettingDescription => String::from_str("Device Setting Description"),
            Tag::SubjectDistanceRange => String::from_str("Subject Distance Range"),
            Tag::ImageUniqueID => String::from_str("Image Unique ID"),
            Tag::OwnerName => String::from_str("Owner Name"),
            Tag::SerialNumber => String::from_str("Serial Number"),
            Tag::LensSpecification => String::from_str("Lens Specification"),
            Tag::LensMake => String::from_str("Lens Make"),
            Tag::LensModel => String::from_str("Lens Model"),
            Tag::LensSerialNumber => String::from_str("Lens Serial Number"),
            Tag::Title => String::from_str("Title"),
            Tag::Raw(val) => {
                let v: u16 = *val;
                let mut out = String::from_str("Unknown(0x");
                out.push(digit((v / 4096) as u8));
                out.push(digit((v / 256 % 16) as u8));
                out.push(digit((v / 16 % 16) as u8));
                out.push(digit((v % 16) as u8));
                out.append(")");
                assert(out@ =~= name_of(*self));
                out
            },
        }
    }
}

/// The name of the tag with the given number.
pub fn tag_name(val: u16) -> (r: String)
    ensures
        r@ == name_of(tag_of(val)),
{
    Tag::from(val).to_string()
}

/// Known tags map to their number and back; every other number is kept as it
/// is.
pub proof fn tag_round_trip(val: u16)
    ensures
        code_of(tag_of(val)) == val,
{
}

pub const IMAGE_WIDTH: Tag = Tag::ImageWidth;

pub const IMAGE_HEIGHT: Tag = Tag::ImageHeight;

pub const BITS_PER_SAMPLE: Tag = Tag::BitsPerSample;

pub const COMPRESSION: Tag = Tag::Compression;

pub const PHOTOMETRIC_INTERPRETATION: Tag = Tag::PhotometricInterpretation;

pub const IMAGE_DESCRIPTION: Tag = Tag::ImageDescription;

pub const MAKE: Tag = Tag::Make;

pub const MODEL: Tag = Tag::Model;

pub const STRIP_OFFSETS: Tag = Tag::StripOffsets;

pub const ORIENTATION: Tag = Tag::Orientation;

pub const SAMPLES_PER_PIXEL: Tag = Tag::SamplesPerPixel;

pub const X_RESOLUTION: Tag = Tag::XResolution;

pub const Y_RESOLUTION: Tag = Tag::YResolution;

pub const RESOLUTION_UNIT: Tag = Tag::ResolutionUnit;

pub const SOFTWARE: Tag = Tag::Software;

pub const DATE_TIME: Tag = Tag::DateTime;

pub const WHITE_POINT: Tag = Tag::WhitePoint;

pub const PRIMARY_CHROMATICITIES: Tag = Tag::PrimaryChromaticities;

pub const THUMBNAIL_OFFSET: Tag = Tag::ThumbnailOffset;

pub const THUMBNAIL_LENGTH: Tag = Tag::ThumbnailLength;

pub const Y_CB_CR_COEFFICIENTS: Tag = Tag::YCbCrCoefficients;

pub const Y_CB_CR_POSITIONING: Tag = Tag::YCbCrPositioning;

pub const REFERENCE_BLACK_WHITE: Tag = Tag::ReferenceBlackWhite;

pub const COPYRIGHT: Tag = Tag::Copyright;

pub const EXPOSURE_TIME: Tag = Tag::ExposureTime;

pub const F_NUMBER: Tag = Tag::FNumber;

pub const EXIF_SUB_IFD_OFFSET: Tag = Tag::ExifSubIfdOffset;

pub const EXPOSURE_PROGRAM: Tag = Tag::ExposureProgram;

pub const GPS_SUB_IFD_OFFSET: Tag = Tag::GpsSubIfdOffset;

pub const ISO_SPEED_RATINGS: Tag = Tag::IsoSpeedRatings;

pub const EXIF_VERSION: Tag = Tag::ExifVersion;

pub const DATE_TIME_ORIGINAL: Tag = Tag::DateTimeOriginal;

pub const DATE_TIME_DIGITIZED: Tag = Tag::DateTimeDigitized;

pub const COMPONENT_CONFIGURATION: Tag = Tag::ComponentConfiguration;

pub const COMPRESSED_BITS_PER_PIXEL: Tag = Tag::CompressedBitsPerPixel;

pub const SHUTTER_SPEED_VALUE: Tag = Tag::ShutterSpeedValue;

pub const APEX_APERTURE_VALUE: Tag = Tag::ApexApertureValue;

pub const BRIGHTNESS_VALUE: Tag = Tag::BrightnessValue;

pub const EXPOSURE_BIAS_VALUE: Tag = Tag::ExposureBiasValue;

pub const MAX_APERTURE_VALUE: Tag = Tag::MaxApertureValue;

pub const SUBJECT_DISTANCE: Tag = Tag::SubjectDistance;

pub const METERING_MODE: Tag = Tag::MeteringMode;

pub const LIGHT_SOURCE: Tag = Tag::LightSource;

pub const FLASH: Tag = Tag::Flash;

pub const FOCAL_LENGTH: Tag = Tag::FocalLength;

pub const MAKER_NOTE: Tag = Tag::MakerNote;

pub const USER_COMMENT: Tag = Tag::UserComment;

pub const XP_COMMENT: Tag = Tag::XPComment;

pub const XP_AUTHOR: Tag = Tag::XPAuthor;

pub const XP_KEYWORDS: Tag = Tag::XPKeywords;

pub const XP_SUBJECT: Tag = Tag::XPSubject;

pub const FLASHPIX_VERSION: Tag = Tag::FlashPixVersion;

pub const COLOR_SPACE: Tag = Tag::ColorSpace;

pub const EXIF_IMAGE_WIDTH: Tag = Tag::ExifImageWidth;

pub const EXIF_IMAGE_HEIGHT: Tag = Tag::ExifImageHeight;

pub const RELATED_SOUND_FILE: Tag = Tag::RelatedSoundFile;

pub const EXIF_INTEROPERABILITY_OFFSET: Tag = Tag::ExifInteroperabilityOffset;

pub const FOCAL_PLANE_X_RESOLUTION: Tag = Tag::FocalPlaneXResolution;

pub const FOCAL_PLANE_Y_RESOLUTION: Tag = Tag::FocalPlaneYResolution;

pub const FOCAL_PLANE_RESOLUTION_UNIT: Tag = Tag::FocalPlaneResolutionUnit;

pub const SENSING_METHOD: Tag = Tag::SensingMethod;

pub const FILE_SOURCE: Tag = Tag::FileSource;

pub const SCENE_TYPE: Tag = Tag::SceneType;

pub const EXPOSURE_MODE: Tag = Tag::ExposureMode;

pub const WHITE_BALANCE: Tag = Tag::WhiteBalance;

pub const DIGITAL_ZOOM_RATIO: Tag = Tag::DigitalZoomRatio;

pub const FOCAL_LENGTH_IN_35MM_FORMAT: Tag = Tag::FocalLengthIn35mmFormat;

pub const SCENE_CAPTURE_TYPE: Tag = Tag::SceneCaptureType;

pub const GAIN_CONTROL: Tag = Tag::GainControl;

pub const CONTRAST: Tag = Tag::Contrast;

pub const SATURATION: Tag = Tag::Saturation;

pub const SHARPNESS: Tag = Tag::Sharpness;

pub const DEVICE_SETTING_DESCRIPTION: Tag = Tag::DeviceSettingDescription;

pub const SUBJECT_DISTANCE_RANGE: Tag = Tag::SubjectDistanceRange;

pub const IMAGE_UNIQUE_ID: Tag = Tag::ImageUniqueID;

pub const OWNER_NAME: Tag = Tag::OwnerName;

pub const SERIAL_NUMBER: Tag = Tag::SerialNumber;

pub const LENS_SPECIFICATION: Tag = Tag::LensSpecification;

pub const LENS_MAKE: Tag = Tag::LensMake;

pub const LENS_MODEL: Tag = Tag::LensModel;

pub const LENS_SERIAL_NUMBER: Tag = Tag::LensSerialNumber;

pub const TITLE: Tag = Tag::Title;

} // verus!
