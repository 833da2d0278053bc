//! The data model of the library: tags, formats, entries, values, errors,
//! and the ghost views that the contracts speak of.

use crate::rational::IRational;
use crate::rational::URational;
use vstd::prelude::*;

verus! {

/// Namespace of an IFD entry.  `Standard` covers the regular TIFF/EXIF/GPS
/// directories; the other namespaces mark entries recovered from a vendor
/// MakerNote blob (the two Nikon MakerNote layouts).
#[derive(Copy, Clone, Debug, PartialEq, Eq, Structural)]
pub enum Namespace {
    Standard,
    NikonFormat2,
    NikonFormat3,
}

/// The recognized EXIF tags.  `code()` gives each tag's numeric code on
/// disk; GPS tag codes overlap numerically with low standard codes and are
/// told apart by the directory they were found in.
#[derive(Copy, Clone, Debug, PartialEq, Eq, Structural, Hash)]
pub enum ExifTag {
    ImageDescription,
    Make,
    Model,
    Orientation,
    XResolution,
    YResolution,
    ResolutionUnit,
    Software,
    DateTime,
    HostComputer,
    WhitePoint,
    PrimaryChromaticities,
    YCbCrCoefficients,
    ReferenceBlackWhite,
    Copyright,
    ExifOffset,
    GPSInfo,
    ExposureTime,
    FNumber,
    ExposureProgram,
    SpectralSensitivity,
    PhotographicSensitivity,
    OECF,
    ExifVersion,
    DateTimeOriginal,
    DateTimeDigitized,
    ShutterSpeedValue,
    ApertureValue,
    BrightnessValue,
    ExposureBiasValue,
    MaxApertureValue,
    SubjectDistance,
    MeteringMode,
    LightSource,
    Flash,
    FocalLength,
    SubjectArea,
    MakerNote,
    UserComment,
    FlashpixVersion,
    ColorSpace,
    RelatedSoundFile,
    FlashEnergy,
    FocalPlaneXResolution,
    FocalPlaneYResolution,
    FocalPlaneResolutionUnit,
    SubjectLocation,
    ExposureIndex,
    SensingMethod,
    FileSource,
    SceneType,
    CFAPattern,
    CustomRendered,
    ExposureMode,
    WhiteBalance,
    DigitalZoomRatio,
    FocalLengthIn35mmFilm,
    SceneCaptureType,
    GainControl,
    Contrast,
    Saturation,
    Sharpness,
    DeviceSettingDescription,
    SubjectDistanceRange,
    ImageUniqueID,
    LensSpecification,
    LensMake,
    LensModel,
    GPSVersionID,
    GPSLatitudeRef,
    GPSLatitude,
    GPSLongitudeRef,
    GPSLongitude,
    GPSAltitudeRef,
    GPSAltitude,
    GPSTimeStamp,
    GPSSatellites,
    GPSStatus,
    GPSMeasureMode,
    GPSDOP,
    GPSSpeedRef,
    GPSSpeed,
    GPSTrackRef,
    GPSTrack,
    GPSImgDirectionRef,
    GPSImgDirection,
    GPSMapDatum,
    GPSDestLatitudeRef,
    GPSDestLatitude,
    GPSDestLongitudeRef,
    GPSDestLongitude,
    GPSDestBearingRef,
    GPSDestBearing,
    GPSDestDistanceRef,
    GPSDestDistance,
    GPSProcessingMethod,
    GPSAreaInformation,
    GPSDateStamp,
    GPSDifferential,
}

/// The numeric on-disk code of an EXIF tag.
pub open spec fn spec_tag_code(t: ExifTag) -> u16 {
    match t {
        ExifTag::ImageDescription => 0x010e,
        ExifTag::Make => 0x010f,
        ExifTag::Model => 0x0110,
        ExifTag::Orientation => 0x0112,
        ExifTag::XResolution => 0x011a,
        ExifTag::YResolution => 0x011b,
        ExifTag::ResolutionUnit => 0x0128,
        ExifTag::Software => 0x0131,
        ExifTag::DateTime => 0x0132,
        ExifTag::HostComputer => 0x013c,
        ExifTag::WhitePoint => 0x013e,
        ExifTag::PrimaryChromaticities => 0x013f,
        ExifTag::YCbCrCoefficients => 0x0211,
        ExifTag::ReferenceBlackWhite => 0x0214,
        ExifTag::Copyright => 0x8298,
        ExifTag::ExifOffset => 0x8769,
        ExifTag::GPSInfo => 0x8825,
        ExifTag::ExposureTime => 0x829a,
        ExifTag::FNumber => 0x829d,
        ExifTag::ExposureProgram => 0x8822,
        ExifTag::SpectralSensitivity => 0x8824,
        ExifTag::PhotographicSensitivity => 0x8827,
        ExifTag::OECF => 0x8828,
        ExifTag::ExifVersion => 0x9000,
        ExifTag::DateTimeOriginal => 0x9003,
        ExifTag::DateTimeDigitized => 0x9004,
        ExifTag::ShutterSpeedValue => 0x9201,
        ExifTag::ApertureValue => 0x9202,
        ExifTag::BrightnessValue => 0x9203,
        ExifTag::ExposureBiasValue => 0x9204,
        ExifTag::MaxApertureValue => 0x9205,
        ExifTag::SubjectDistance => 0x9206,
        ExifTag::MeteringMode => 0x9207,
        ExifTag::LightSource => 0x9208,
        ExifTag::Flash => 0x9209,
        ExifTag::FocalLength => 0x920a,
        ExifTag::SubjectArea => 0x9214,
        ExifTag::MakerNote => 0x927c,
        ExifTag::UserComment => 0x9286,
        ExifTag::FlashpixVersion => 0xa000,
        ExifTag::ColorSpace => 0xa001,
        ExifTag::RelatedSoundFile => 0xa004,
        ExifTag::FlashEnergy => 0xa20b,
        ExifTag::FocalPlaneXResolution => 0xa20e,
        ExifTag::FocalPlaneYResolution => 0xa20f,
        ExifTag::FocalPlaneResolutionUnit => 0xa210,
        ExifTag::SubjectLocation => 0xa214,
        ExifTag::ExposureIndex => 0xa215,
        ExifTag::SensingMethod => 0xa217,
        ExifTag::FileSource => 0xa300,
        ExifTag::SceneType => 0xa301,
        ExifTag::CFAPattern => 0xa302,
        ExifTag::CustomRendered => 0xa401,
        ExifTag::ExposureMode => 0xa402,
        ExifTag::WhiteBalance => 0xa403,
        ExifTag::DigitalZoomRatio => 0xa404,
        ExifTag::FocalLengthIn35mmFilm => 0xa405,
        ExifTag::SceneCaptureType => 0xa406,
        ExifTag::GainControl => 0xa407,
        ExifTag::Contrast => 0xa408,
        ExifTag::Saturation => 0xa409,
        ExifTag::Sharpness => 0xa40a,
        ExifTag::DeviceSettingDescription => 0xa40b,
        ExifTag::SubjectDistanceRange => 0xa40c,
        ExifTag::ImageUniqueID => 0xa420,
        ExifTag::LensSpecification => 0xa432,
        ExifTag::LensMake => 0xa433,
        ExifTag::LensModel => 0xa434,
        ExifTag::GPSVersionID => 0x0000,
        ExifTag::GPSLatitudeRef => 0x0001,
        ExifTag::GPSLatitude => 0x0002,
        ExifTag::GPSLongitudeRef => 0x0003,
        ExifTag::GPSLongitude => 0x0004,
        ExifTag::GPSAltitudeRef => 0x0005,
        ExifTag::GPSAltitude => 0x0006,
        ExifTag::GPSTimeStamp => 0x0007,
        ExifTag::GPSSatellites => 0x0008,
        ExifTag::GPSStatus => 0x0009,
        ExifTag::GPSMeasureMode => 0x000a,
        ExifTag::GPSDOP => 0x000b,
        ExifTag::GPSSpeedRef => 0x000c,
        ExifTag::GPSSpeed => 0x000d,
        ExifTag::GPSTrackRef => 0x000e,
        ExifTag::GPSTrack => 0x000f,
        ExifTag::GPSImgDirectionRef => 0x0010,
        ExifTag::GPSImgDirection => 0x0011,
        ExifTag::GPSMapDatum => 0x0012,
        ExifTag::GPSDestLatitudeRef => 0x0013,
        ExifTag::GPSDestLatitude => 0x0014,
        ExifTag::GPSDestLongitudeRef => 0x0015,
        ExifTag::GPSDestLongitude => 0x0016,
        ExifTag::GPSDestBearingRef => 0x0017,
        ExifTag::GPSDestBearing => 0x0018,
        ExifTag::GPSDestDistanceRef => 0x0019,
        ExifTag::GPSDestDistance => 0x001a,
        ExifTag::GPSProcessingMethod => 0x001b,
        ExifTag::GPSAreaInformation => 0x001c,
        ExifTag::GPSDateStamp => 0x001d,
        ExifTag::GPSDifferential => 0x001e,
    }
}

/// The readable English name of an EXIF tag.
pub open spec fn spec_tag_name(t: ExifTag) -> Seq<char> {
    match t {
        ExifTag::ImageDescription => "Image Description"@,
        ExifTag::Make => "Manufacturer"@,
        ExifTag::Model => "Model"@,
        ExifTag::Orientation => "Orientation"@,
        ExifTag::XResolution => "X Resolution"@,
        ExifTag::YResolution => "Y Resolution"@,
        ExifTag::ResolutionUnit => "Resolution Unit"@,
        ExifTag::Software => "Software"@,
        ExifTag::DateTime => "Image date"@,
        ExifTag::HostComputer => "Host computer"@,
        ExifTag::WhitePoint => "White Point"@,
        ExifTag::PrimaryChromaticities => "Primary Chromaticities"@,
        ExifTag::YCbCrCoefficients => "YCbCr Coefficients"@,
        ExifTag::ReferenceBlackWhite => "Reference Black/White"@,
        ExifTag::Copyright => "Copyright"@,
        ExifTag::ExifOffset => "This image has an Exif SubIFD"@,
        ExifTag::GPSInfo => "This image has a GPS SubIFD"@,
        ExifTag::ExposureTime => "Exposure time"@,
        ExifTag::FNumber => "Aperture"@,
        ExifTag::ExposureProgram => "Exposure program"@,
        ExifTag::SpectralSensitivity => "Spectral sensitivity"@,
        ExifTag::PhotographicSensitivity => "ISO speed ratings"@,
        ExifTag::OECF => "OECF"@,
        ExifTag::ExifVersion => "Exif version"@,
        ExifTag::DateTimeOriginal => "Date of original image"@,
        ExifTag::DateTimeDigitized => "Date of image digitalization"@,
        ExifTag::ShutterSpeedValue => "Shutter speed"@,
        ExifTag::ApertureValue => "Aperture value"@,
        ExifTag::BrightnessValue => "Brightness value"@,
        ExifTag::ExposureBiasValue => "Exposure bias value"@,
        ExifTag::MaxApertureValue => "Maximum aperture value"@,
        ExifTag::SubjectDistance => "Subject distance"@,
        ExifTag::MeteringMode => "Meteting mode"@,
        ExifTag::LightSource => "Light source"@,
        ExifTag::Flash => "Flash"@,
        ExifTag::FocalLength => "Focal length"@,
        ExifTag::SubjectArea => "Subject area"@,
        ExifTag::MakerNote => "Maker note"@,
        ExifTag::UserComment => "User comment"@,
        ExifTag::FlashpixVersion => "Flashpix version"@,
        ExifTag::ColorSpace => "Color space"@,
        ExifTag::RelatedSoundFile => "Related sound file"@,
        ExifTag::FlashEnergy => "Flash energy"@,
        ExifTag::FocalPlaneXResolution => "Focal plane X resolution"@,
        ExifTag::FocalPlaneYResolution => "Focal plane Y resolution"@,
        ExifTag::FocalPlaneResolutionUnit => "Focal plane resolution unit"@,
        ExifTag::SubjectLocation => "Subject location"@,
        ExifTag::ExposureIndex => "Exposure index"@,
        ExifTag::SensingMethod => "Sensing method"@,
        ExifTag::FileSource => "File source"@,
        ExifTag::SceneType => "Scene type"@,
        ExifTag::CFAPattern => "CFA Pattern"@,
        ExifTag::CustomRendered => "Custom rendered"@,
        ExifTag::ExposureMode => "Exposure mode"@,
        ExifTag::WhiteBalance => "White balance mode"@,
        ExifTag::DigitalZoomRatio => "Digital zoom ratio"@,
        ExifTag::FocalLengthIn35mmFilm => "Equivalent focal length in 35mm"@,
        ExifTag::SceneCaptureType => "Scene capture type"@,
        ExifTag::GainControl => "Gain control"@,
        ExifTag::Contrast => "Contrast"@,
        ExifTag::Saturation => "Saturation"@,
        ExifTag::Sharpness => "Sharpness"@,
        ExifTag::DeviceSettingDescription => "Device setting description"@,
        ExifTag::SubjectDistanceRange => "Subject distance range"@,
        ExifTag::ImageUniqueID => "Image unique ID"@,
        ExifTag::LensSpecification => "Lens specification"@,
        ExifTag::LensMake => "Lens manufacturer"@,
        ExifTag::LensModel => "Lens model"@,
        ExifTag::GPSVersionID => "GPS version ID"@,
        ExifTag::GPSLatitudeRef => "GPS latitude ref"@,
        ExifTag::GPSLatitude => "GPS latitude"@,
        ExifTag::GPSLongitudeRef => "GPS longitude ref"@,
        ExifTag::GPSLongitude => "GPS longitude"@,
        ExifTag::GPSAltitudeRef => "GPS altitude ref"@,
        ExifTag::GPSAltitude => "GPS altitude"@,
        ExifTag::GPSTimeStamp => "GPS timestamp"@,
        ExifTag::GPSSatellites => "GPS satellites"@,
        ExifTag::GPSStatus => "GPS status"@,
        ExifTag::GPSMeasureMode => "GPS measure mode"@,
        ExifTag::GPSDOP => "GPS Data Degree of Precision (DOP)"@,
        ExifTag::GPSSpeedRef => "GPS speed ref"@,
        ExifTag::GPSSpeed => "GPS speed"@,
        ExifTag::GPSTrackRef => "GPS track ref"@,
        ExifTag::GPSTrack => "GPS track"@,
        ExifTag::GPSImgDirectionRef => "GPS image direction ref"@,
        ExifTag::GPSImgDirection => "GPS image direction"@,
        ExifTag::GPSMapDatum => "GPS map datum"@,
        ExifTag::GPSDestLatitudeRef => "GPS destination latitude ref"@,
        ExifTag::GPSDestLatitude => "GPS destination latitude"@,
        ExifTag::GPSDestLongitudeRef => "GPS destination longitude ref"@,
        ExifTag::GPSDestLongitude => "GPS destination longitude"@,
        ExifTag::GPSDestBearingRef => "GPS destination bearing ref"@,
        ExifTag::GPSDestBearing => "GPS destination bearing"@,
        ExifTag::GPSDestDistanceRef => "GPS destination distance ref"@,
        ExifTag::GPSDestDistance => "GPS destination distance"@,
        ExifTag::GPSProcessingMethod => "GPS processing method"@,
        ExifTag::GPSAreaInformation => "GPS area information"@,
        ExifTag::GPSDateStamp => "GPS date stamp"@,
        ExifTag::GPSDifferential => "GPS differential"@,
    }
}

/// The resolved identity of an IFD entry: either a recognized EXIF tag, or
/// the raw numeric code of a tag unknown to this library.
#[derive(Copy, Clone, Debug, PartialEq, Eq, Structural)]
pub enum IfdTag {
    Unknown(u16),
    Exif(ExifTag),
}

/// The possible data formats of an IFD entry.  `new` maps the on-disk
/// format code to a variant; `code` maps it back; `size` gives the size of
/// one element in bytes.
#[derive(Copy, Clone, Debug, PartialEq, Eq, Structural)]
pub enum IfdFormat {
    Unknown,
    U8,
    Ascii,
    U16,
    U32,
    URational,
    I8,
    Undefined,
    I16,
    I32,
    IRational,
    F32,
    F64,
}

/// A parsed IFD entry of a TIFF image, before value decoding.
#[derive(Clone, Debug)]
pub struct IfdEntry {
    /// Namespace of the entry (standard directory or vendor MakerNote).
    pub namespace: Namespace,
    /// Raw IFD tag code; it may or may not be a recognized EXIF tag.
    pub tag: u16,
    /// Data format declared by the entry.
    pub format: IfdFormat,
    /// Number of elements, each of the declared format.
    pub count: u32,
    /// Raw payload bytes.  Right after the superficial parse these are the
    /// four in-place bytes of the record; once resolved, they are the
    /// entry's whole payload, in place or copied from elsewhere in the
    /// image.
    pub data: Vec<u8>,
    /// Whether multi-byte integers of this entry are little-endian.
    pub le: bool,
}

/// Ghost view of an `IfdEntry`.
pub ghost struct IfdEntryV {
    pub namespace: Namespace,
    pub tag: u16,
    pub format: IfdFormat,
    pub count: u32,
    pub data: Seq<u8>,
    pub le: bool,
}

impl View for IfdEntry {
    type V = IfdEntryV;

    open spec fn view(&self) -> IfdEntryV {
        IfdEntryV {
            namespace: self.namespace,
            tag: self.tag,
            format: self.format,
            count: self.count,
            data: self.data@,
            le: self.le,
        }
    }
}

impl DeepView for IfdEntry {
    type V = IfdEntryV;

    open spec fn deep_view(&self) -> IfdEntryV {
        self.view()
    }
}

/// The decoded, strongly typed value of an IFD entry.  Each variant holds
/// an array, because EXIF values are arrays; single values are one-element
/// arrays.  `F32` and `F64` hold the IEEE-754 bit patterns of the stored
/// floating-point elements, read with the entry's byte order.
#[derive(Clone, Debug)]
pub enum TagValue {
    /// Array of unsigned bytes.
    U8(Vec<u8>),
    /// Text: trailing NUL bytes stripped, then decoded as UTF-8 with lossy
    /// replacement (the standard mandates 7-bit ASCII; this is permissive).
    Ascii(String),
    U16(Vec<u16>),
    U32(Vec<u32>),
    URational(Vec<URational>),
    I8(Vec<i8>),
    /// Opaque bytes with a declared `Undefined` format, with the
    /// endianness of the containing directory.
    Undefined(Vec<u8>, bool),
    I16(Vec<i16>),
    I32(Vec<i32>),
    IRational(Vec<IRational>),
    /// IEEE-754 single-precision bit patterns.
    F32(Vec<u32>),
    /// IEEE-754 double-precision bit patterns.
    F64(Vec<u64>),
    /// Bytes of an entry whose format code is not recognized, with the
    /// endianness of the containing directory.
    Unknown(Vec<u8>, bool),
    /// An entry whose payload is too short for its declared count and
    /// format: raw bytes, endianness, declared format code, declared count.
    Invalid(Vec<u8>, bool, u16, u32),
}

/// Ghost view of a `TagValue`.
pub ghost enum TagValueV {
    U8(Seq<u8>),
    Ascii(Seq<char>),
    U16(Seq<u16>),
    U32(Seq<u32>),
    URational(Seq<URational>),
    I8(Seq<i8>),
    Undefined(Seq<u8>, bool),
    I16(Seq<i16>),
    I32(Seq<i32>),
    IRational(Seq<IRational>),
    F32(Seq<u32>),
    F64(Seq<u64>),
    Unknown(Seq<u8>, bool),
    Invalid(Seq<u8>, bool, u16, u32),
}

impl View for TagValue {
    type V = TagValueV;

    open spec fn view(&self) -> TagValueV {
        match self {
            TagValue::U8(v) => TagValueV::U8(v@),
            TagValue::Ascii(s) => TagValueV::Ascii(s@),
            TagValue::U16(v) => TagValueV::U16(v@),
            TagValue::U32(v) => TagValueV::U32(v@),
            TagValue::URational(v) => TagValueV::URational(v@),
            TagValue::I8(v) => TagValueV::I8(v@),
            TagValue::Undefined(v, le) => TagValueV::Undefined(v@, *le),
            TagValue::I16(v) => TagValueV::I16(v@),
            TagValue::I32(v) => TagValueV::I32(v@),
            TagValue::IRational(v) => TagValueV::IRational(v@),
            TagValue::F32(v) => TagValueV::F32(v@),
            TagValue::F64(v) => TagValueV::F64(v@),
            TagValue::Unknown(v, le) => TagValueV::Unknown(v@, *le),
            TagValue::Invalid(v, le, f, c) => TagValueV::Invalid(v@, *le, *f, *c),
        }
    }
}

/// A fully interpreted EXIF tag, as handed to the caller.
#[derive(Clone, Debug)]
pub struct ExifEntry {
    /// Namespace of the tag (standard, or a vendor MakerNote layout).
    pub namespace: Namespace,
    /// Resolved tag identity: a recognized EXIF tag, or the raw code.
    pub tag: IfdTag,
    /// Decoded tag value.
    pub value: TagValue,
    /// Human-readable rendering of the value; the cross-tag
    /// postprocessing pass may append sibling-derived context to it.
    pub value_more_readable: String,
}

/// Ghost view of an `ExifEntry`.
pub ghost struct ExifEntryV {
    pub namespace: Namespace,
    pub tag: IfdTag,
    pub value: TagValueV,
    pub value_more_readable: Seq<char>,
}

impl View for ExifEntry {
    type V = ExifEntryV;

    open spec fn view(&self) -> ExifEntryV {
        ExifEntryV {
            namespace: self.namespace,
            tag: self.tag,
            value: self.value@,
            value_more_readable: self.value_more_readable@,
        }
    }
}

impl DeepView for ExifEntry {
    type V = ExifEntryV;

    open spec fn deep_view(&self) -> ExifEntryV {
        self.view()
    }
}

/// Top-level result of a successful parse: the detected MIME type and the
/// ordered list of entries.
#[derive(Clone, Debug)]
pub struct ExifData {
    /// MIME type of the image: `image/jpeg` or `image/tiff`.
    pub mime: String,
    /// All EXIF entries found in the image.
    pub entries: Vec<ExifEntry>,
}

/// Ghost view of an `ExifData`.
pub ghost struct ExifDataV {
    pub mime: Seq<char>,
    pub entries: Seq<ExifEntryV>,
}

impl View for ExifData {
    type V = ExifDataV;

    open spec fn view(&self) -> ExifDataV {
        ExifDataV { mime: self.mime@, entries: self.entries.deep_view() }
    }
}

/// The fatal errors of a parse.  A malformed individual entry never raises
/// one of these: it degrades or skips that entry alone.
#[derive(Clone, Debug)]
pub enum ExifError {
    /// An I/O failure, described by the host that did the reading.
    IoError(String),
    /// The buffer's magic bytes match neither JPEG nor TIFF.
    FileTypeUnknown,
    /// A valid JPEG without a usable EXIF segment; the payload says what
    /// was wrong with the marker stream.
    JpegWithoutExif(String),
    /// Fewer than eight bytes, so not even a TIFF preamble fits.
    TiffTruncated,
    /// The first four bytes match neither TIFF byte-order signature; the
    /// payload lists the four bytes seen.
    TiffBadPreamble(String),
    /// A directory is truncated.
    IfdTruncated,
    /// An EXIF directory or sub-directory is truncated or unreachable.
    ExifIfdTruncated(String),
    /// No EXIF directory entry was found.
    ExifIfdEntryNotFound,
}

/// Ghost view of an `ExifError`.
pub ghost enum ExifErrorV {
    IoError(Seq<char>),
    FileTypeUnknown,
    JpegWithoutExif(Seq<char>),
    TiffTruncated,
    TiffBadPreamble(Seq<char>),
    IfdTruncated,
    ExifIfdTruncated(Seq<char>),
    ExifIfdEntryNotFound,
}

impl View for ExifError {
    type V = ExifErrorV;

    open spec fn view(&self) -> ExifErrorV {
        match self {
            ExifError::IoError(s) => ExifErrorV::IoError(s@),
            ExifError::FileTypeUnknown => ExifErrorV::FileTypeUnknown,
            ExifError::JpegWithoutExif(s) => ExifErrorV::JpegWithoutExif(s@),
            ExifError::TiffTruncated => ExifErrorV::TiffTruncated,
            ExifError::TiffBadPreamble(s) => ExifErrorV::TiffBadPreamble(s@),
            ExifError::IfdTruncated => ExifErrorV::IfdTruncated,
            ExifError::ExifIfdTruncated(s) => ExifErrorV::ExifIfdTruncated(s@),
            ExifError::ExifIfdEntryNotFound => ExifErrorV::ExifIfdEntryNotFound,
        }
    }
}

/// Type returned by image buffer parsing.
pub type ExifResult = Result<ExifData, ExifError>;

/// Type returned by the lower-level directory parsing functions.
pub type ExifEntryResult = Result<Vec<ExifEntry>, ExifError>;

impl ExifTag {
    /// The numeric on-disk code of the tag.
    pub fn code(&self) -> (c: u16)
        ensures
            c == spec_tag_code(*self),
    {
        match *self {
            ExifTag::ImageDescription => 0x010e,
            ExifTag::Make => 0x010f,
            ExifTag::Model => 0x0110,
            ExifTag::Orientation => 0x0112,
            ExifTag::XResolution => 0x011a,
            ExifTag::YResolution => 0x011b,
            ExifTag::ResolutionUnit => 0x0128,
            ExifTag::Software => 0x0131,
            ExifTag::DateTime => 0x0132,
            ExifTag::HostComputer => 0x013c,
            ExifTag::WhitePoint => 0x013e,
            ExifTag::PrimaryChromaticities => 0x013f,
            ExifTag::YCbCrCoefficients => 0x0211,
            ExifTag::ReferenceBlackWhite => 0x0214,
            ExifTag::Copyright => 0x8298,
            ExifTag::ExifOffset => 0x8769,
            ExifTag::GPSInfo => 0x8825,
            ExifTag::ExposureTime => 0x829a,
            ExifTag::FNumber => 0x829d,
            ExifTag::ExposureProgram => 0x8822,
            ExifTag::SpectralSensitivity => 0x8824,
            ExifTag::PhotographicSensitivity => 0x8827,
            ExifTag::OECF => 0x8828,
            ExifTag::ExifVersion => 0x9000,
            ExifTag::DateTimeOriginal => 0x9003,
            ExifTag::DateTimeDigitized => 0x9004,
            ExifTag::ShutterSpeedValue => 0x9201,
            ExifTag::ApertureValue => 0x9202,
            ExifTag::BrightnessValue => 0x9203,
            ExifTag::ExposureBiasValue => 0x9204,
            ExifTag::MaxApertureValue => 0x9205,
            ExifTag::SubjectDistance => 0x9206,
            ExifTag::MeteringMode => 0x9207,
            ExifTag::LightSource => 0x9208,
            ExifTag::Flash => 0x9209,
            ExifTag::FocalLength => 0x920a,
            ExifTag::SubjectArea => 0x9214,
            ExifTag::MakerNote => 0x927c,
            ExifTag::UserComment => 0x9286,
            ExifTag::FlashpixVersion => 0xa000,
            ExifTag::ColorSpace => 0xa001,
            ExifTag::RelatedSoundFile => 0xa004,
            ExifTag::FlashEnergy => 0xa20b,
            ExifTag::FocalPlaneXResolution => 0xa20e,
            ExifTag::FocalPlaneYResolution => 0xa20f,
            ExifTag::FocalPlaneResolutionUnit => 0xa210,
            ExifTag::SubjectLocation => 0xa214,
            ExifTag::ExposureIndex => 0xa215,
            ExifTag::SensingMethod => 0xa217,
            ExifTag::FileSource => 0xa300,
            ExifTag::SceneType => 0xa301,
            ExifTag::CFAPattern => 0xa302,
            ExifTag::CustomRendered => 0xa401,
            ExifTag::ExposureMode => 0xa402,
            ExifTag::WhiteBalance => 0xa403,
            ExifTag::DigitalZoomRatio => 0xa404,
            ExifTag::FocalLengthIn35mmFilm => 0xa405,
            ExifTag::SceneCaptureType => 0xa406,
            ExifTag::GainControl => 0xa407,
            ExifTag::Contrast => 0xa408,
            ExifTag::Saturation => 0xa409,
            ExifTag::Sharpness => 0xa40a,
            ExifTag::DeviceSettingDescription => 0xa40b,
            ExifTag::SubjectDistanceRange => 0xa40c,
            ExifTag::ImageUniqueID => 0xa420,
            ExifTag::LensSpecification => 0xa432,
            ExifTag::LensMake => 0xa433,
            ExifTag::LensModel => 0xa434,
            ExifTag::GPSVersionID => 0x0000,
            ExifTag::GPSLatitudeRef => 0x0001,
            ExifTag::GPSLatitude => 0x0002,
            ExifTag::GPSLongitudeRef => 0x0003,
            ExifTag::GPSLongitude => 0x0004,
            ExifTag::GPSAltitudeRef => 0x0005,
            ExifTag::GPSAltitude => 0x0006,
            ExifTag::GPSTimeStamp => 0x0007,
            ExifTag::GPSSatellites => 0x0008,
            ExifTag::GPSStatus => 0x0009,
            ExifTag::GPSMeasureMode => 0x000a,
            ExifTag::GPSDOP => 0x000b,
            ExifTag::GPSSpeedRef => 0x000c,
            ExifTag::GPSSpeed => 0x000d,
            ExifTag::GPSTrackRef => 0x000e,
            ExifTag::GPSTrack => 0x000f,
            ExifTag::GPSImgDirectionRef => 0x0010,
            ExifTag::GPSImgDirection => 0x0011,
            ExifTag::GPSMapDatum => 0x0012,
            ExifTag::GPSDestLatitudeRef => 0x0013,
            ExifTag::GPSDestLatitude => 0x0014,
            ExifTag::GPSDestLongitudeRef => 0x0015,
            ExifTag::GPSDestLongitude => 0x0016,
            ExifTag::GPSDestBearingRef => 0x0017,
            ExifTag::GPSDestBearing => 0x0018,
            ExifTag::GPSDestDistanceRef => 0x0019,
            ExifTag::GPSDestDistance => 0x001a,
            ExifTag::GPSProcessingMethod => 0x001b,
            ExifTag::GPSAreaInformation => 0x001c,
            ExifTag::GPSDateStamp => 0x001d,
            ExifTag::GPSDifferential => 0x001e,
        }
    }

    /// The readable English name of the tag.
    pub fn name(&self) -> (s: &'static str)
        ensures
            s@ == spec_tag_name(*self),
    {
        match *self {
            ExifTag::ImageDescription => "Image Description",
            ExifTag::Make => "Manufacturer",
            ExifTag::Model => "Model",
            ExifTag::Orientation => "Orientation",
            ExifTag::XResolution => "X Resolution",
            ExifTag::YResolution => "Y Resolution",
            ExifTag::ResolutionUnit => "Resolution Unit",
            ExifTag::Software => "Software",
            ExifTag::DateTime => "Image date",
            ExifTag::HostComputer => "Host computer",
            ExifTag::WhitePoint => "White Point",
            ExifTag::PrimaryChromaticities => "Primary Chromaticities",
            ExifTag::YCbCrCoefficients => "YCbCr Coefficients",
            ExifTag::ReferenceBlackWhite => "Reference Black/White",
            ExifTag::Copyright => "Copyright",
            ExifTag::ExifOffset => "This image has an Exif SubIFD",
            ExifTag::GPSInfo => "This image has a GPS SubIFD",
            ExifTag::ExposureTime => "Exposure time",
            ExifTag::FNumber => "Aperture",
            ExifTag::ExposureProgram => "Exposure program",
            ExifTag::SpectralSensitivity => "Spectral sensitivity",
            ExifTag::PhotographicSensitivity => "ISO speed ratings",
            ExifTag::OECF => "OECF",
            ExifTag::ExifVersion => "Exif version",
            ExifTag::DateTimeOriginal => "Date of original image",
            ExifTag::DateTimeDigitized => "Date of image digitalization",
            ExifTag::ShutterSpeedValue => "Shutter speed",
            ExifTag::ApertureValue => "Aperture value",
            ExifTag::BrightnessValue => "Brightness value",
            ExifTag::ExposureBiasValue => "Exposure bias value",
            ExifTag::MaxApertureValue => "Maximum aperture value",
            ExifTag::SubjectDistance => "Subject distance",
            ExifTag::MeteringMode => "Meteting mode",
            ExifTag::LightSource => "Light source",
            ExifTag::Flash => "Flash",
            ExifTag::FocalLength => "Focal length",
            ExifTag::SubjectArea => "Subject area",
            ExifTag::MakerNote => "Maker note",
            ExifTag::UserComment => "User comment",
            ExifTag::FlashpixVersion => "Flashpix version",
            ExifTag::ColorSpace => "Color space",
            ExifTag::RelatedSoundFile => "Related sound file",
            ExifTag::FlashEnergy => "Flash energy",
            ExifTag::FocalPlaneXResolution => "Focal plane X resolution",
            ExifTag::FocalPlaneYResolution => "Focal plane Y resolution",
            ExifTag::FocalPlaneResolutionUnit => "Focal plane resolution unit",
            ExifTag::SubjectLocation => "Subject location",
            ExifTag::ExposureIndex => "Exposure index",
            ExifTag::SensingMethod => "Sensing method",
            ExifTag::FileSource => "File source",
            ExifTag::SceneType => "Scene type",
            ExifTag::CFAPattern => "CFA Pattern",
            ExifTag::CustomRendered => "Custom rendered",
            ExifTag::ExposureMode => "Exposure mode",
            ExifTag::WhiteBalance => "White balance mode",
            ExifTag::DigitalZoomRatio => "Digital zoom ratio",
            ExifTag::FocalLengthIn35mmFilm => "Equivalent focal length in 35mm",
            ExifTag::SceneCaptureType => "Scene capture type",
            ExifTag::GainControl => "Gain control",
            ExifTag::Contrast => "Contrast",
            ExifTag::Saturation => "Saturation",
            ExifTag::Sharpness => "Sharpness",
            ExifTag::DeviceSettingDescription => "Device setting description",
            ExifTag::SubjectDistanceRange => "Subject distance range",
            ExifTag::ImageUniqueID => "Image unique ID",
            ExifTag::LensSpecification => "Lens specification",
            ExifTag::LensMake => "Lens manufacturer",
            ExifTag::LensModel => "Lens model",
            ExifTag::GPSVersionID => "GPS version ID",
            ExifTag::GPSLatitudeRef => "GPS latitude ref",
            ExifTag::GPSLatitude => "GPS latitude",
            ExifTag::GPSLongitudeRef => "GPS longitude ref",
            ExifTag::GPSLongitude => "GPS longitude",
            ExifTag::GPSAltitudeRef => "GPS altitude ref",
            ExifTag::GPSAltitude => "GPS altitude",
            ExifTag::GPSTimeStamp => "GPS timestamp",
            ExifTag::GPSSatellites => "GPS satellites",
            ExifTag::GPSStatus => "GPS status",
            ExifTag::GPSMeasureMode => "GPS measure mode",
            ExifTag::GPSDOP => "GPS Data Degree of Precision (DOP)",
            ExifTag::GPSSpeedRef => "GPS speed ref",
            ExifTag::GPSSpeed => "GPS speed",
            ExifTag::GPSTrackRef => "GPS track ref",
            ExifTag::GPSTrack => "GPS track",
            ExifTag::GPSImgDirectionRef => "GPS image direction ref",
            ExifTag::GPSImgDirection => "GPS image direction",
            ExifTag::GPSMapDatum => "GPS map datum",
            ExifTag::GPSDestLatitudeRef => "GPS destination latitude ref",
            ExifTag::GPSDestLatitude => "GPS destination latitude",
            ExifTag::GPSDestLongitudeRef => "GPS destination longitude ref",
            ExifTag::GPSDestLongitude => "GPS destination longitude",
            ExifTag::GPSDestBearingRef => "GPS destination bearing ref",
            ExifTag::GPSDestBearing => "GPS destination bearing",
            ExifTag::GPSDestDistanceRef => "GPS destination distance ref",
            ExifTag::GPSDestDistance => "GPS destination distance",
            ExifTag::GPSProcessingMethod => "GPS processing method",
            ExifTag::GPSAreaInformation => "GPS area information",
            ExifTag::GPSDateStamp => "GPS date stamp",
            ExifTag::GPSDifferential => "GPS differential",
        }
    }
}

} // verus!
