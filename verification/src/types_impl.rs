//! Behaviour of the data model: format codes and sizes, entry payload
//! resolution, tag identity helpers, and value units.

use crate::exif::lemma_renderer_pre;
use crate::exif::render_value;
use crate::exif::spec_count_ok;
use crate::exif::spec_min_count;
use crate::exif::spec_render;
use crate::exif::spec_tag_to_exif;
use crate::exif::tag_to_exif;
use crate::exif::Renderer;
use crate::exif::TagDescriptor;
use crate::ifdformat::spec_tag_value_new;
use crate::ifdformat::tag_value_new;
use crate::lowlevel::spec_read_u32;
use crate::types::Namespace;
use crate::to_csv::spec_csv_i16;
use crate::to_csv::spec_csv_i32;
use crate::to_csv::spec_csv_i8;
use crate::to_csv::spec_csv_irational;
use crate::to_csv::spec_csv_u16;
use crate::to_csv::spec_csv_u32;
use crate::to_csv::spec_csv_u64;
use crate::to_csv::spec_csv_u8;
use crate::to_csv::spec_csv_urational;
use crate::to_csv::ToCsv;
use crate::types::TagValueV;
use crate::lowlevel::read_u32;
use crate::numfmt::dec_u128;
use crate::numfmt::spec_udec;
use crate::types::ExifEntry;
use crate::types::ExifTag;
use crate::types::IfdEntry;
use crate::types::IfdEntryV;
use crate::types::IfdFormat;
use crate::types::IfdTag;
use crate::types::TagValue;
use crate::types::spec_tag_code;
use crate::types::spec_tag_name;
use vstd::prelude::*;
use vstd::slice::slice_subrange;
use vstd::slice::slice_to_vec;
use vstd::string::*;

verus! {

/// The format variant for an on-disk format code.
pub open spec fn spec_format_new(n: u16) -> IfdFormat {
    match n {
        1 => IfdFormat::U8,
        2 => IfdFormat::Ascii,
        3 => IfdFormat::U16,
        4 => IfdFormat::U32,
        5 => IfdFormat::URational,
        6 => IfdFormat::I8,
        7 => IfdFormat::Undefined,
        8 => IfdFormat::I16,
        9 => IfdFormat::I32,
        10 => IfdFormat::IRational,
        11 => IfdFormat::F32,
        12 => IfdFormat::F64,
        _ => IfdFormat::Unknown,
    }
}

/// The size in bytes of one element of the format.
pub open spec fn spec_format_size(f: IfdFormat) -> u8 {
    match f {
        IfdFormat::Unknown => 1,
        IfdFormat::U8 => 1,
        IfdFormat::Ascii => 1,
        IfdFormat::U16 => 2,
        IfdFormat::U32 => 4,
        IfdFormat::URational => 8,
        IfdFormat::I8 => 1,
        IfdFormat::Undefined => 1,
        IfdFormat::I16 => 2,
        IfdFormat::I32 => 4,
        IfdFormat::IRational => 8,
        IfdFormat::F32 => 4,
        IfdFormat::F64 => 8,
    }
}

/// The on-disk format code of the format variant.
pub open spec fn spec_format_code(f: IfdFormat) -> u16 {
    match f {
        IfdFormat::Unknown => 0,
        IfdFormat::U8 => 1,
        IfdFormat::Ascii => 2,
        IfdFormat::U16 => 3,
        IfdFormat::U32 => 4,
        IfdFormat::URational => 5,
        IfdFormat::I8 => 6,
        IfdFormat::Undefined => 7,
        IfdFormat::I16 => 8,
        IfdFormat::I32 => 9,
        IfdFormat::IRational => 10,
        IfdFormat::F32 => 11,
        IfdFormat::F64 => 12,
    }
}

impl IfdFormat {
    /// Map an on-disk format code to the format it declares; codes out of
    /// range map to `Unknown`.
    pub fn new(n: u16) -> (f: IfdFormat)
        ensures
            f == spec_format_new(n),
    {
        match n {
            1 => IfdFormat::U8,
            2 => IfdFormat::Ascii,
            3 => IfdFormat::U16,
            4 => IfdFormat::U32,
            5 => IfdFormat::URational,
            6 => IfdFormat::I8,
            7 => IfdFormat::Undefined,
            8 => IfdFormat::I16,
            9 => IfdFormat::I32,
            10 => IfdFormat::IRational,
            11 => IfdFormat::F32,
            12 => IfdFormat::F64,
            _ => IfdFormat::Unknown,
        }
    }

    /// Size in bytes of one element of this format.  An IFD entry holds an
    /// array of elements, so this is not the size of a whole entry.
    pub fn size(&self) -> (s: u8)
        ensures
            s == spec_format_size(*self),
    {
        match *self {
            IfdFormat::Unknown => 1,
            IfdFormat::U8 => 1,
            IfdFormat::Ascii => 1,
            IfdFormat::U16 => 2,
            IfdFormat::U32 => 4,
            IfdFormat::URational => 8,
            IfdFormat::I8 => 1,
            IfdFormat::Undefined => 1,
            IfdFormat::I16 => 2,
            IfdFormat::I32 => 4,
            IfdFormat::IRational => 8,
            IfdFormat::F32 => 4,
            IfdFormat::F64 => 8,
        }
    }

    /// The on-disk format code of this format (`Unknown` maps to 0).
    pub fn code(&self) -> (c: u16)
        ensures
            c == spec_format_code(*self),
    {
        match *self {
            IfdFormat::Unknown => 0,
            IfdFormat::U8 => 1,
            IfdFormat::Ascii => 2,
            IfdFormat::U16 => 3,
            IfdFormat::U32 => 4,
            IfdFormat::URational => 5,
            IfdFormat::I8 => 6,
            IfdFormat::Undefined => 7,
            IfdFormat::I16 => 8,
            IfdFormat::I32 => 9,
            IfdFormat::IRational => 10,
            IfdFormat::F32 => 11,
            IfdFormat::F64 => 12,
        }
    }
}

/// Whether the registry row is internally consistent: string-like formats
/// carry no count bounds, fixed-width formats always carry them.
pub open spec fn spec_format_count_bounds_valid(
    format: IfdFormat,
    count_bounds: Option<(u32, u32)>,
) -> bool {
    match format {
        IfdFormat::Ascii => count_bounds is None,
        IfdFormat::Undefined => true,
        IfdFormat::Unknown => true,
        _ => count_bounds is Some,
    }
}

/// Check the registry-row invariant on a format and its count bounds.
pub fn are_format_count_bounds_valid(format: IfdFormat, count_bounds: Option<(u32, u32)>) -> (r:
    bool)
    ensures
        r == spec_format_count_bounds_valid(format, count_bounds),
{
    match format {
        IfdFormat::Ascii => count_bounds.is_none(),
        IfdFormat::Undefined | IfdFormat::Unknown => true,
        _ => count_bounds.is_some(),
    }
}

/// Whether a declared element count lies within inclusive bounds.
pub fn is_count_within_bounds(count: u32, min: u32, max: u32) -> (r: bool)
    ensures
        r == (min <= count && count <= max),
{
    count >= min && count <= max
}

/// The total payload length in bytes of an entry: element size times
/// element count.
pub open spec fn spec_entry_length(e: IfdEntryV) -> nat {
    (spec_format_size(e.format) as nat) * (e.count as nat)
}

/// The payload offset an entry's four in-place bytes point at.
pub open spec fn spec_data_as_offset(e: IfdEntryV) -> nat {
    spec_read_u32(e.le, e.data) as nat
}

/// The result of resolving an entry's payload against the whole image
/// buffer: the resolved entry and whether resolution succeeded.
pub open spec fn spec_copy_data(e: IfdEntryV, contents: Seq<u8>) -> (IfdEntryV, bool) {
    if spec_entry_length(e) <= 4 {
        (e, true)
    } else {
        let offset = spec_data_as_offset(e);
        if contents.len() < offset + spec_entry_length(e) {
            (e, false)
        } else {
            (
                IfdEntryV {
                    data: contents.subrange(
                        offset as int,
                        offset + spec_entry_length(e) as int,
                    ),
                    ..e
                },
                true,
            )
        }
    }
}

impl IfdEntry {
    /// The entry's four in-place bytes read as an offset into the image.
    pub fn data_as_offset(&self) -> (r: usize)
        requires
            self@.data.len() >= 4,
        ensures
            r == spec_data_as_offset(self@),
    {
        read_u32(self.le, slice_subrange(self.data.as_slice(), 0, 4)) as usize
    }

    /// Total length in bytes of the entry's payload (element count times
    /// element size).
    pub fn length(&self) -> (r: u64)
        ensures
            r == spec_entry_length(self@),
    {
        proof {
            assert(spec_format_size(self.format) <= 8);
            assert((spec_format_size(self.format) as int) * (self.count as int) <= 8
                * 0xffff_ffff) by (nonlinear_arith)
                requires
                    spec_format_size(self.format) <= 8,
                    self.count <= 0xffff_ffffu32,
            ;
        }
        (self.format.size() as u64) * (self.count as u64)
    }

    /// Whether the payload fits in the four in-place bytes of the record;
    /// if not, those bytes hold an offset to the payload elsewhere.
    pub fn in_ifd(&self) -> (r: bool)
        ensures
            r == (spec_entry_length(self@) <= 4),
    {
        self.length() <= 4
    }

    /// Resolve the payload: keep the in-place bytes when they suffice, and
    /// otherwise copy the payload from the offset they point at.  Returns
    /// false, leaving the entry unchanged, when the offset and length do
    /// not fit inside the buffer; callers skip such entries.
    pub fn copy_data(&mut self, contents: &[u8]) -> (ok: bool)
        requires
            old(self)@.data.len() >= 4,
        ensures
            final(self)@ == spec_copy_data(old(self)@, contents@).0,
            ok == spec_copy_data(old(self)@, contents@).1,
            final(self)@.data.len() >= spec_entry_length(old(self)@) || (spec_entry_length(
                old(self)@,
            ) > 4 && !ok),
    {
        if self.in_ifd() {
            return true;
        }
        let offset: usize = self.data_as_offset();
        let length: u64 = self.length();
        proof {
            assert(spec_format_size(self.format) <= 8);
            assert(spec_entry_length(self@) <= 8 * 0xffff_ffffu64) by (nonlinear_arith)
                requires
                    spec_format_size(self@.format) <= 8,
                    self@.count <= 0xffff_ffffu32,
                    spec_entry_length(self@) == (spec_format_size(self@.format) as nat) * (
                    self@.count as nat),
            ;
        }
        let n: usize = contents.len();
        if (n as u64) < (offset as u64) + length {
            return false;
        }
        let ext = slice_subrange(contents, offset, offset + (length as usize));
        self.data = slice_to_vec(ext);
        true
    }
}

/// The registry row that resolves an entry: the registry lookup in the
/// standard namespace (GPS or main, as the walker says), and the
/// catch-all unrecognized row for entries of a vendor MakerNote.
pub open spec fn spec_entry_descriptor(e: IfdEntryV, gps: bool) -> TagDescriptor {
    if e.namespace == Namespace::Standard {
        spec_tag_to_exif(gps, e.tag)
    } else {
        TagDescriptor {
            tag: IfdTag::Unknown(e.tag),
            format: IfdFormat::Unknown,
            count_bounds: None,
            renderer: Renderer::Strpass,
        }
    }
}

/// The interpreted entry an IFD entry becomes: its registry row resolves
/// the tag identity; the payload decodes to a typed value; and the
/// readable string is the row's renderer applied to the value when the
/// tag is recognized, the on-disk format matches the row, the declared
/// count lies within the row's bounds and the value decoded cleanly —
/// otherwise the value's plain readable form, so that one malformed
/// entry degrades instead of failing.
pub open spec fn spec_into_exif_entry(e: IfdEntryV, gps: bool) -> crate::types::ExifEntryV {
    let desc = spec_entry_descriptor(e, gps);
    let value = spec_tag_value_new(e);
    let renderable = desc.tag is Exif && desc.format == e.format && spec_count_ok(
        desc.count_bounds,
        e.count,
    ) && !(value is Invalid);
    crate::types::ExifEntryV {
        namespace: e.namespace,
        tag: desc.tag,
        value,
        value_more_readable: if renderable {
            spec_render(desc.renderer, value)
        } else {
            spec_tag_value_display(value)
        },
    }
}

/// The numeric code of a resolved tag identity: the recognized tag's code,
/// or the raw code itself.
pub open spec fn spec_ifd_tag_code(t: IfdTag) -> u16 {
    match t {
        IfdTag::Unknown(v) => v,
        IfdTag::Exif(tag) => spec_tag_code(tag),
    }
}

/// The readable form of a resolved tag identity: the recognized tag's
/// name, or the raw code in decimal.
pub open spec fn spec_ifd_tag_display(t: IfdTag) -> Seq<char> {
    match t {
        IfdTag::Unknown(v) => spec_udec(v as nat),
        IfdTag::Exif(tag) => spec_tag_name(tag),
    }
}

impl IfdEntry {
    /// An equal copy of the entry.
    pub fn duplicate(&self) -> (r: IfdEntry)
        ensures
            r@ == self@,
    {
        IfdEntry {
            namespace: self.namespace,
            tag: self.tag,
            format: self.format,
            count: self.count,
            data: slice_to_vec(self.data.as_slice()),
            le: self.le,
        }
    }

    /// Interpret the entry: resolve its tag in the registry, decode its
    /// value, and render the readable string, as `spec_into_exif_entry`.
    pub fn into_exif_entry(self, gps: bool) -> (r: ExifEntry)
        requires
            self@.data.len() >= 1,
        ensures
            r@ == spec_into_exif_entry(self@, gps),
    {
        let desc: TagDescriptor = if self.namespace == Namespace::Standard {
            tag_to_exif(gps, self.tag)
        } else {
            TagDescriptor {
                tag: IfdTag::Unknown(self.tag),
                format: IfdFormat::Unknown,
                count_bounds: None,
                renderer: Renderer::Strpass,
            }
        };
        let value = tag_value_new(&self);
        let invalid: bool = match &value {
            TagValue::Invalid(_, _, _, _) => true,
            _ => false,
        };
        let bounds_ok: bool = match desc.count_bounds {
            None => true,
            Some((mn, mx)) => is_count_within_bounds(self.count, mn, mx),
        };
        let renderable: bool = desc.tag.is_known() && desc.format == self.format && bounds_ok
            && !invalid;
        let value_more_readable: String = if renderable {
            proof {
                lemma_renderer_pre(desc.renderer, self@, spec_min_count(desc.count_bounds));
            }
            render_value(desc.renderer, &value)
        } else {
            value.display_string()
        };
        ExifEntry { namespace: self.namespace, tag: desc.tag, value, value_more_readable }
    }
}

impl IfdTag {
    /// The numeric on-disk code of this tag identity.
    pub fn value(&self) -> (c: u16)
        ensures
            c == spec_ifd_tag_code(*self),
    {
        match *self {
            IfdTag::Unknown(value) => value,
            IfdTag::Exif(tag) => tag.code(),
        }
    }

    /// Whether the tag was not recognized.
    pub fn is_unknown(&self) -> (r: bool)
        ensures
            r == (*self is Unknown),
    {
        match *self {
            IfdTag::Unknown(_) => true,
            _ => false,
        }
    }

    /// Whether the tag was recognized.
    pub fn is_known(&self) -> (r: bool)
        ensures
            r == (*self is Exif),
    {
        !self.is_unknown()
    }

    /// The readable form of the tag identity.
    pub fn display(&self) -> (s: String)
        ensures
            s@ == spec_ifd_tag_display(*self),
    {
        match *self {
            IfdTag::Unknown(value) => dec_u128(value as u128),
            IfdTag::Exif(tag) => String::from_str(tag.name()),
        }
    }
}

/// The unit of a recognized tag's value, `none` for unitless tags, and a
/// `@Tag` reference when the unit comes from a sibling tag.
pub open spec fn spec_tag_unit(t: ExifTag) -> Seq<char> {
    match t {
        ExifTag::ImageDescription => "none"@,
        ExifTag::Make => "none"@,
        ExifTag::Model => "none"@,
        ExifTag::Orientation => "none"@,
        ExifTag::XResolution => "pixels per res unit"@,
        ExifTag::YResolution => "pixels per res unit"@,
        ExifTag::ResolutionUnit => "none"@,
        ExifTag::Software => "none"@,
        ExifTag::DateTime => "none"@,
        ExifTag::HostComputer => "none"@,
        ExifTag::WhitePoint => "CIE 1931 coordinates"@,
        ExifTag::PrimaryChromaticities => "CIE 1931 coordinates"@,
        ExifTag::YCbCrCoefficients => "none"@,
        ExifTag::ReferenceBlackWhite => "RGB or YCbCr"@,
        ExifTag::Copyright => "none"@,
        ExifTag::ExifOffset => "byte offset"@,
        ExifTag::GPSInfo => "byte offset"@,
        ExifTag::ExposureTime => "s"@,
        ExifTag::FNumber => "f-number"@,
        ExifTag::ExposureProgram => "none"@,
        ExifTag::SpectralSensitivity => "ASTM string"@,
        ExifTag::PhotographicSensitivity => "ISO"@,
        ExifTag::OECF => "none"@,
        ExifTag::ExifVersion => "none"@,
        ExifTag::DateTimeOriginal => "none"@,
        ExifTag::DateTimeDigitized => "none"@,
        ExifTag::ShutterSpeedValue => "APEX"@,
        ExifTag::ApertureValue => "APEX"@,
        ExifTag::BrightnessValue => "APEX"@,
        ExifTag::ExposureBiasValue => "APEX"@,
        ExifTag::MaxApertureValue => "APEX"@,
        ExifTag::SubjectDistance => "m"@,
        ExifTag::MeteringMode => "none"@,
        ExifTag::LightSource => "none"@,
        ExifTag::Flash => "none"@,
        ExifTag::FocalLength => "mm"@,
        ExifTag::SubjectArea => "px"@,
        ExifTag::MakerNote => "none"@,
        ExifTag::UserComment => "none"@,
        ExifTag::FlashpixVersion => "none"@,
        ExifTag::ColorSpace => "none"@,
        ExifTag::RelatedSoundFile => "none"@,
        ExifTag::FlashEnergy => "BCPS"@,
        ExifTag::FocalPlaneXResolution => "@FocalPlaneResolutionUnit"@,
        ExifTag::FocalPlaneYResolution => "@FocalPlaneResolutionUnit"@,
        ExifTag::FocalPlaneResolutionUnit => "none"@,
        ExifTag::SubjectLocation => "X,Y"@,
        ExifTag::ExposureIndex => "EI"@,
        ExifTag::SensingMethod => "none"@,
        ExifTag::FileSource => "none"@,
        ExifTag::SceneType => "none"@,
        ExifTag::CFAPattern => "none"@,
        ExifTag::CustomRendered => "none"@,
        ExifTag::ExposureMode => "none"@,
        ExifTag::WhiteBalance => "none"@,
        ExifTag::DigitalZoomRatio => "none"@,
        ExifTag::FocalLengthIn35mmFilm => "mm"@,
        ExifTag::SceneCaptureType => "none"@,
        ExifTag::GainControl => "none"@,
        ExifTag::Contrast => "none"@,
        ExifTag::Saturation => "none"@,
        ExifTag::Sharpness => "none"@,
        ExifTag::DeviceSettingDescription => "none"@,
        ExifTag::SubjectDistanceRange => "none"@,
        ExifTag::ImageUniqueID => "none"@,
        ExifTag::LensSpecification => "none"@,
        ExifTag::LensMake => "none"@,
        ExifTag::LensModel => "none"@,
        ExifTag::GPSVersionID => "none"@,
        ExifTag::GPSLatitudeRef => "none"@,
        ExifTag::GPSLatitude => "D/M/S"@,
        ExifTag::GPSLongitudeRef => "none"@,
        ExifTag::GPSLongitude => "D/M/S"@,
        ExifTag::GPSAltitudeRef => "none"@,
        ExifTag::GPSAltitude => "m"@,
        ExifTag::GPSTimeStamp => "UTC time"@,
        ExifTag::GPSSatellites => "none"@,
        ExifTag::GPSStatus => "none"@,
        ExifTag::GPSMeasureMode => "none"@,
        ExifTag::GPSDOP => "none"@,
        ExifTag::GPSSpeedRef => "none"@,
        ExifTag::GPSSpeed => "@GPSSpeedRef"@,
        ExifTag::GPSTrackRef => "none"@,
        ExifTag::GPSTrack => "deg"@,
        ExifTag::GPSImgDirectionRef => "none"@,
        ExifTag::GPSImgDirection => "deg"@,
        ExifTag::GPSMapDatum => "none"@,
        ExifTag::GPSDestLatitudeRef => "none"@,
        ExifTag::GPSDestLatitude => "D/M/S"@,
        ExifTag::GPSDestLongitudeRef => "none"@,
        ExifTag::GPSDestLongitude => "D/M/S"@,
        ExifTag::GPSDestBearingRef => "none"@,
        ExifTag::GPSDestBearing => "deg"@,
        ExifTag::GPSDestDistanceRef => "none"@,
        ExifTag::GPSDestDistance => "@GPSDestDistanceRef"@,
        ExifTag::GPSProcessingMethod => "none"@,
        ExifTag::GPSAreaInformation => ""@,
        ExifTag::GPSDateStamp => "none"@,
        ExifTag::GPSDifferential => "none"@,
    }
}

impl ExifEntry {
    /// Unit of the value, if applicable.  Empty when the tag is unknown;
    /// `"none"` when the tag is recognized and unitless.  The unit refers
    /// to the decoded value, not to the readable string: a GPS latitude is
    /// a rational triplet with unit `D/M/S` even though the readable
    /// string combines the three parts.
    pub fn unit(&self) -> (s: &'static str)
        ensures
            self.tag matches IfdTag::Exif(t) ==> s@ == spec_tag_unit(t),
            self.tag is Unknown ==> s@ == ""@,
    {
        if let IfdTag::Exif(exif_tag) = self.tag {
            match exif_tag {
            ExifTag::ImageDescription => "none",
            ExifTag::Make => "none",
            ExifTag::Model => "none",
            ExifTag::Orientation => "none",
            ExifTag::XResolution => "pixels per res unit",
            ExifTag::YResolution => "pixels per res unit",
            ExifTag::ResolutionUnit => "none",
            ExifTag::Software => "none",
            ExifTag::DateTime => "none",
            ExifTag::HostComputer => "none",
            ExifTag::WhitePoint => "CIE 1931 coordinates",
            ExifTag::PrimaryChromaticities => "CIE 1931 coordinates",
            ExifTag::YCbCrCoefficients => "none",
            ExifTag::ReferenceBlackWhite => "RGB or YCbCr",
            ExifTag::Copyright => "none",
            ExifTag::ExifOffset => "byte offset",
            ExifTag::GPSInfo => "byte offset",
            ExifTag::ExposureTime => "s",
            ExifTag::FNumber => "f-number",
            ExifTag::ExposureProgram => "none",
            ExifTag::SpectralSensitivity => "ASTM string",
            ExifTag::PhotographicSensitivity => "ISO",
            ExifTag::OECF => "none",
            ExifTag::ExifVersion => "none",
            ExifTag::DateTimeOriginal => "none",
            ExifTag::DateTimeDigitized => "none",
            ExifTag::ShutterSpeedValue => "APEX",
            ExifTag::ApertureValue => "APEX",
            ExifTag::BrightnessValue => "APEX",
            ExifTag::ExposureBiasValue => "APEX",
            ExifTag::MaxApertureValue => "APEX",
            ExifTag::SubjectDistance => "m",
            ExifTag::MeteringMode => "none",
            ExifTag::LightSource => "none",
            ExifTag::Flash => "none",
            ExifTag::FocalLength => "mm",
            ExifTag::SubjectArea => "px",
            ExifTag::MakerNote => "none",
            ExifTag::UserComment => "none",
            ExifTag::FlashpixVersion => "none",
            ExifTag::ColorSpace => "none",
            ExifTag::RelatedSoundFile => "none",
            ExifTag::FlashEnergy => "BCPS",
            ExifTag::FocalPlaneXResolution => "@FocalPlaneResolutionUnit",
            ExifTag::FocalPlaneYResolution => "@FocalPlaneResolutionUnit",
            ExifTag::FocalPlaneResolutionUnit => "none",
            ExifTag::SubjectLocation => "X,Y",
            ExifTag::ExposureIndex => "EI",
            ExifTag::SensingMethod => "none",
            ExifTag::FileSource => "none",
            ExifTag::SceneType => "none",
            ExifTag::CFAPattern => "none",
            ExifTag::CustomRendered => "none",
            ExifTag::ExposureMode => "none",
            ExifTag::WhiteBalance => "none",
            ExifTag::DigitalZoomRatio => "none",
            ExifTag::FocalLengthIn35mmFilm => "mm",
            ExifTag::SceneCaptureType => "none",
            ExifTag::GainControl => "none",
            ExifTag::Contrast => "none",
            ExifTag::Saturation => "none",
            ExifTag::Sharpness => "none",
            ExifTag::DeviceSettingDescription => "none",
            ExifTag::SubjectDistanceRange => "none",
            ExifTag::ImageUniqueID => "none",
            ExifTag::LensSpecification => "none",
            ExifTag::LensMake => "none",
            ExifTag::LensModel => "none",
            ExifTag::GPSVersionID => "none",
            ExifTag::GPSLatitudeRef => "none",
            ExifTag::GPSLatitude => "D/M/S",
            ExifTag::GPSLongitudeRef => "none",
            ExifTag::GPSLongitude => "D/M/S",
            ExifTag::GPSAltitudeRef => "none",
            ExifTag::GPSAltitude => "m",
            ExifTag::GPSTimeStamp => "UTC time",
            ExifTag::GPSSatellites => "none",
            ExifTag::GPSStatus => "none",
            ExifTag::GPSMeasureMode => "none",
            ExifTag::GPSDOP => "none",
            ExifTag::GPSSpeedRef => "none",
            ExifTag::GPSSpeed => "@GPSSpeedRef",
            ExifTag::GPSTrackRef => "none",
            ExifTag::GPSTrack => "deg",
            ExifTag::GPSImgDirectionRef => "none",
            ExifTag::GPSImgDirection => "deg",
            ExifTag::GPSMapDatum => "none",
            ExifTag::GPSDestLatitudeRef => "none",
            ExifTag::GPSDestLatitude => "D/M/S",
            ExifTag::GPSDestLongitudeRef => "none",
            ExifTag::GPSDestLongitude => "D/M/S",
            ExifTag::GPSDestBearingRef => "none",
            ExifTag::GPSDestBearing => "deg",
            ExifTag::GPSDestDistanceRef => "none",
            ExifTag::GPSDestDistance => "@GPSDestDistanceRef",
            ExifTag::GPSProcessingMethod => "none",
            ExifTag::GPSAreaInformation => "",
            ExifTag::GPSDateStamp => "none",
            ExifTag::GPSDifferential => "none",
            }
        } else {
            ""
        }
    }
}

/// The plain readable form of a decoded value: the text itself for Ascii,
/// the elements joined by `, ` for arrays (bit patterns as unsigned
/// integers for the floating-point formats), a fixed note for opaque
/// unknown blobs and for invalid values.
pub open spec fn spec_tag_value_display(v: TagValueV) -> Seq<char> {
    match v {
        TagValueV::Ascii(s) => s,
        TagValueV::U8(a) => spec_csv_u8(a),
        TagValueV::I8(a) => spec_csv_i8(a),
        TagValueV::U16(a) => spec_csv_u16(a),
        TagValueV::I16(a) => spec_csv_i16(a),
        TagValueV::U32(a) => spec_csv_u32(a),
        TagValueV::I32(a) => spec_csv_i32(a),
        TagValueV::F32(a) => spec_csv_u32(a),
        TagValueV::F64(a) => spec_csv_u64(a),
        TagValueV::URational(a) => spec_csv_urational(a),
        TagValueV::IRational(a) => spec_csv_irational(a),
        TagValueV::Undefined(a, _) => spec_csv_u8(a),
        TagValueV::Unknown(_, _) => "<unknown blob>"@,
        TagValueV::Invalid(_, _, _, _) => "Invalid"@,
    }
}

impl TagValue {
    /// The plain readable form of the value, as `spec_tag_value_display`.
    pub fn display_string(&self) -> (s: String)
        ensures
            s@ == spec_tag_value_display(self@),
    {
        match self {
            TagValue::Ascii(s) => s.clone(),
            TagValue::U8(a) => a.to_csv(),
            TagValue::I8(a) => a.to_csv(),
            TagValue::U16(a) => a.to_csv(),
            TagValue::I16(a) => a.to_csv(),
            TagValue::U32(a) => a.to_csv(),
            TagValue::I32(a) => a.to_csv(),
            TagValue::F32(a) => a.to_csv(),
            TagValue::F64(a) => a.to_csv(),
            TagValue::URational(a) => a.to_csv(),
            TagValue::IRational(a) => a.to_csv(),
            TagValue::Undefined(a, _) => a.to_csv(),
            TagValue::Unknown(_, _) => String::from_str("<unknown blob>"),
            TagValue::Invalid(_, _, _, _) => String::from_str("Invalid"),
        }
    }

    /// An equal copy of the value.
    pub fn duplicate(&self) -> (r: TagValue)
        ensures
            r@ == self@,
    {
        match self {
            TagValue::Ascii(s) => TagValue::Ascii(s.clone()),
            TagValue::U8(a) => TagValue::U8(slice_to_vec(a.as_slice())),
            TagValue::I8(a) => TagValue::I8(slice_to_vec(a.as_slice())),
            TagValue::U16(a) => TagValue::U16(slice_to_vec(a.as_slice())),
            TagValue::I16(a) => TagValue::I16(slice_to_vec(a.as_slice())),
            TagValue::U32(a) => TagValue::U32(slice_to_vec(a.as_slice())),
            TagValue::I32(a) => TagValue::I32(slice_to_vec(a.as_slice())),
            TagValue::F32(a) => TagValue::F32(slice_to_vec(a.as_slice())),
            TagValue::F64(a) => TagValue::F64(slice_to_vec(a.as_slice())),
            TagValue::URational(a) => TagValue::URational(slice_to_vec(a.as_slice())),
            TagValue::IRational(a) => TagValue::IRational(slice_to_vec(a.as_slice())),
            TagValue::Undefined(a, le) => TagValue::Undefined(slice_to_vec(a.as_slice()), *le),
            TagValue::Unknown(a, le) => TagValue::Unknown(slice_to_vec(a.as_slice()), *le),
            TagValue::Invalid(a, le, f, c) => TagValue::Invalid(
                slice_to_vec(a.as_slice()),
                *le,
                *f,
                *c,
            ),
        }
    }
}

impl ExifEntry {
    /// An equal copy of the entry.
    pub fn duplicate(&self) -> (r: ExifEntry)
        ensures
            r@ == self@,
    {
        ExifEntry {
            namespace: self.namespace,
            tag: self.tag,
            value: self.value.duplicate(),
            value_more_readable: self.value_more_readable.clone(),
        }
    }
}

/// An elementwise-equal copy of an entry list.
pub fn duplicate_entries(v: &Vec<ExifEntry>) -> (r: Vec<ExifEntry>)
    ensures
        r.deep_view() == v.deep_view(),
{
    let mut r: Vec<ExifEntry> = Vec::new();
    let mut i: usize = 0;
    while i < v.len()
        invariant
            i <= v@.len(),
            r@.len() == i,
            forall|j: int| 0 <= j < i ==> #[trigger] r@[j]@ == v@[j]@,
        decreases v@.len() - i,
    {
        r.push(v[i].duplicate());
        i = i + 1;
    }
    proof {
        assert(r.deep_view() =~~= v.deep_view());
    }
    r
}

} // verus!
