//! The tag registry: the total mapping from a directory context and a
//! numeric tag code to the tag's identity, its expected on-disk format,
//! its element-count bounds, and the renderer for its values.
//!
//! GPS tag codes overlap numerically with low standard codes; the walker
//! says which directory it is reading, and the registry resolves the code
//! in that namespace.  Codes that match no known entry map to a catch-all
//! unrecognized descriptor; the lookup is total over the whole 16-bit
//! code space in both namespaces, and every descriptor it returns is
//! internally consistent.

use crate::exifreadable::apex_av;
use crate::exifreadable::apex_brightness;
use crate::exifreadable::apex_ev;
use crate::exifreadable::apex_tv;
use crate::exifreadable::color_space;
use crate::exifreadable::contrast;
use crate::exifreadable::custom_rendered;
use crate::exifreadable::dms;
use crate::exifreadable::exposure_mode;
use crate::exifreadable::exposure_program;
use crate::exifreadable::exposure_time;
use crate::exifreadable::f_number;
use crate::exifreadable::file_source;
use crate::exifreadable::flash;
use crate::exifreadable::flash_energy;
use crate::exifreadable::focal_length;
use crate::exifreadable::focal_length_35;
use crate::exifreadable::gain_control;
use crate::exifreadable::gps_alt_ref;
use crate::exifreadable::gpsbearing;
use crate::exifreadable::gpsbearingref;
use crate::exifreadable::gpsdestdistance;
use crate::exifreadable::gpsdestdistanceref;
use crate::exifreadable::gpsdiff;
use crate::exifreadable::gpsmeasuremode;
use crate::exifreadable::gpsspeed;
use crate::exifreadable::gpsspeedref;
use crate::exifreadable::gpsstatus;
use crate::exifreadable::gpstimestamp;
use crate::exifreadable::iso_speeds;
use crate::exifreadable::lens_spec;
use crate::exifreadable::light_source;
use crate::exifreadable::metering_mode;
use crate::exifreadable::meters;
use crate::exifreadable::orientation;
use crate::exifreadable::rational_value;
use crate::exifreadable::resolution_unit;
use crate::exifreadable::saturation;
use crate::exifreadable::scene_capture_type;
use crate::exifreadable::scene_type;
use crate::exifreadable::sensing_method;
use crate::exifreadable::sharpness;
use crate::exifreadable::spec_apex_av;
use crate::exifreadable::spec_apex_brightness;
use crate::exifreadable::spec_apex_ev;
use crate::exifreadable::spec_apex_tv;
use crate::exifreadable::spec_color_space;
use crate::exifreadable::spec_contrast;
use crate::exifreadable::spec_custom_rendered;
use crate::exifreadable::spec_dms;
use crate::exifreadable::spec_exposure_mode;
use crate::exifreadable::spec_exposure_program;
use crate::exifreadable::spec_exposure_time;
use crate::exifreadable::spec_f_number;
use crate::exifreadable::spec_file_source;
use crate::exifreadable::spec_flash;
use crate::exifreadable::spec_flash_energy;
use crate::exifreadable::spec_focal_length;
use crate::exifreadable::spec_focal_length_35;
use crate::exifreadable::spec_gain_control;
use crate::exifreadable::spec_gps_alt_ref;
use crate::exifreadable::spec_gpsbearing;
use crate::exifreadable::spec_gpsbearingref;
use crate::exifreadable::spec_gpsdestdistance;
use crate::exifreadable::spec_gpsdestdistanceref;
use crate::exifreadable::spec_gpsdiff;
use crate::exifreadable::spec_gpsmeasuremode;
use crate::exifreadable::spec_gpsspeed;
use crate::exifreadable::spec_gpsspeedref;
use crate::exifreadable::spec_gpsstatus;
use crate::exifreadable::spec_gpstimestamp;
use crate::exifreadable::spec_iso_speeds;
use crate::exifreadable::spec_lens_spec;
use crate::exifreadable::spec_light_source;
use crate::exifreadable::spec_metering_mode;
use crate::exifreadable::spec_meters;
use crate::exifreadable::spec_orientation;
use crate::exifreadable::spec_rational_value;
use crate::exifreadable::spec_resolution_unit;
use crate::exifreadable::spec_saturation;
use crate::exifreadable::spec_scene_capture_type;
use crate::exifreadable::spec_scene_type;
use crate::exifreadable::spec_sensing_method;
use crate::exifreadable::spec_sharpness;
use crate::exifreadable::spec_strpass;
use crate::exifreadable::spec_subject_area;
use crate::exifreadable::spec_subject_distance_range;
use crate::exifreadable::spec_subject_location;
use crate::exifreadable::spec_undefined_as_ascii;
use crate::exifreadable::spec_undefined_as_blob;
use crate::exifreadable::spec_undefined_as_encoded_string;
use crate::exifreadable::spec_undefined_as_u8;
use crate::exifreadable::spec_white_balance_mode;
use crate::exifreadable::strpass;
use crate::exifreadable::subject_area;
use crate::exifreadable::subject_distance_range;
use crate::exifreadable::subject_location;
use crate::exifreadable::undefined_as_ascii;
use crate::exifreadable::undefined_as_blob;
use crate::exifreadable::undefined_as_encoded_string;
use crate::exifreadable::undefined_as_u8;
use crate::exifreadable::white_balance_mode;
use crate::types::ExifTag;
use crate::types::IfdEntryV;
use crate::types::IfdFormat;
use crate::types::IfdTag;
use crate::types::TagValue;
use crate::types::TagValueV;
use crate::ifdformat::spec_tag_value_new;
use crate::types_impl::spec_format_count_bounds_valid;
use crate::types_impl::spec_ifd_tag_code;
use vstd::prelude::*;

verus! {

/// The renderer a registry row selects for its tag's values; `render_value`
/// dispatches on it.
#[derive(Copy, Clone, Debug)]
pub enum Renderer {
    Orientation,
    ResolutionUnit,
    ExposureProgram,
    MeteringMode,
    LightSource,
    ColorSpace,
    SensingMethod,
    CustomRendered,
    ExposureMode,
    WhiteBalanceMode,
    FocalLength35,
    SceneCaptureType,
    GainControl,
    Contrast,
    Saturation,
    Sharpness,
    SubjectDistanceRange,
    GpsDiff,
    Flash,
    IsoSpeeds,
    SubjectArea,
    SubjectLocation,
    ExposureTime,
    FNumber,
    FocalLength,
    Meters,
    FlashEnergy,
    GpsSpeed,
    GpsBearing,
    GpsDestDistance,
    ApexAv,
    Dms,
    GpsTimestamp,
    LensSpec,
    ApexTv,
    ApexBrightness,
    ApexEv,
    RationalValue,
    GpsStatus,
    GpsMeasureMode,
    GpsSpeedRef,
    GpsBearingRef,
    GpsDestDistanceRef,
    GpsAltRef,
    UndefinedAsBlob,
    UndefinedAsAscii,
    UndefinedAsU8,
    UndefinedAsEncodedString,
    FileSource,
    SceneType,
    Strpass,
}

/// Inclusive element-count bounds of a registry row: minimum, maximum.
pub type CountBounds = (u32, u32);

/// One row of the tag registry: the resolved tag identity, the expected
/// on-disk format, the valid element-count bounds (`None` for the
/// variable-length text and blob formats), and the value renderer.
#[derive(Copy, Clone, Debug)]
pub struct TagDescriptor {
    pub tag: IfdTag,
    pub format: IfdFormat,
    pub count_bounds: Option<CountBounds>,
    pub renderer: Renderer,
}

/// What a renderer demands of the value it is given.
pub open spec fn spec_render_pre(r: Renderer, v: TagValueV) -> bool {
    match r {
        Renderer::Orientation => v is U16 && v->U16_0.len() >= 1,
        Renderer::ResolutionUnit => v is U16 && v->U16_0.len() >= 1,
        Renderer::ExposureProgram => v is U16 && v->U16_0.len() >= 1,
        Renderer::MeteringMode => v is U16 && v->U16_0.len() >= 1,
        Renderer::LightSource => v is U16 && v->U16_0.len() >= 1,
        Renderer::ColorSpace => v is U16 && v->U16_0.len() >= 1,
        Renderer::SensingMethod => v is U16 && v->U16_0.len() >= 1,
        Renderer::CustomRendered => v is U16 && v->U16_0.len() >= 1,
        Renderer::ExposureMode => v is U16 && v->U16_0.len() >= 1,
        Renderer::WhiteBalanceMode => v is U16 && v->U16_0.len() >= 1,
        Renderer::FocalLength35 => v is U16 && v->U16_0.len() >= 1,
        Renderer::SceneCaptureType => v is U16 && v->U16_0.len() >= 1,
        Renderer::GainControl => v is U16 && v->U16_0.len() >= 1,
        Renderer::Contrast => v is U16 && v->U16_0.len() >= 1,
        Renderer::Saturation => v is U16 && v->U16_0.len() >= 1,
        Renderer::Sharpness => v is U16 && v->U16_0.len() >= 1,
        Renderer::SubjectDistanceRange => v is U16 && v->U16_0.len() >= 1,
        Renderer::GpsDiff => v is U16 && v->U16_0.len() >= 1,
        Renderer::Flash => v is U16 && v->U16_0.len() >= 1,
        Renderer::IsoSpeeds => v is U16,
        Renderer::SubjectArea => v is U16,
        Renderer::SubjectLocation => v is U16 && v->U16_0.len() >= 2,
        Renderer::ExposureTime => v is URational && v->URational_0.len() >= 1,
        Renderer::FNumber => v is URational && v->URational_0.len() >= 1,
        Renderer::FocalLength => v is URational && v->URational_0.len() >= 1,
        Renderer::Meters => v is URational && v->URational_0.len() >= 1,
        Renderer::FlashEnergy => v is URational && v->URational_0.len() >= 1,
        Renderer::GpsSpeed => v is URational && v->URational_0.len() >= 1,
        Renderer::GpsBearing => v is URational && v->URational_0.len() >= 1,
        Renderer::GpsDestDistance => v is URational && v->URational_0.len() >= 1,
        Renderer::ApexAv => v is URational && v->URational_0.len() >= 1,
        Renderer::Dms => v is URational && v->URational_0.len() >= 3,
        Renderer::GpsTimestamp => v is URational && v->URational_0.len() >= 3,
        Renderer::LensSpec => v is URational && v->URational_0.len() >= 4,
        Renderer::ApexTv => v is IRational && v->IRational_0.len() >= 1,
        Renderer::ApexBrightness => v is IRational && v->IRational_0.len() >= 1,
        Renderer::ApexEv => v is IRational && v->IRational_0.len() >= 1,
        Renderer::RationalValue => v is URational || v is IRational,
        Renderer::GpsStatus => v is Ascii,
        Renderer::GpsMeasureMode => v is Ascii,
        Renderer::GpsSpeedRef => v is Ascii,
        Renderer::GpsBearingRef => v is Ascii,
        Renderer::GpsDestDistanceRef => v is Ascii,
        Renderer::GpsAltRef => v is U8 && v->U8_0.len() >= 1,
        Renderer::UndefinedAsBlob => v is Undefined,
        Renderer::UndefinedAsAscii => v is Undefined,
        Renderer::UndefinedAsU8 => v is Undefined,
        Renderer::UndefinedAsEncodedString => v is Undefined,
        Renderer::FileSource => v is Undefined,
        Renderer::SceneType => v is Undefined && v->Undefined_0.len() >= 1,
        Renderer::Strpass => true,
    }
}

/// Whether a renderer is safe for every non-invalid value decoded with
/// the given format and at least `min_count` declared elements.
pub open spec fn spec_renderer_accepts(r: Renderer, fmt: IfdFormat, min_count: nat) -> bool {
    match r {
        Renderer::Orientation => fmt == IfdFormat::U16 && min_count >= 1,
        Renderer::ResolutionUnit => fmt == IfdFormat::U16 && min_count >= 1,
        Renderer::ExposureProgram => fmt == IfdFormat::U16 && min_count >= 1,
        Renderer::MeteringMode => fmt == IfdFormat::U16 && min_count >= 1,
        Renderer::LightSource => fmt == IfdFormat::U16 && min_count >= 1,
        Renderer::ColorSpace => fmt == IfdFormat::U16 && min_count >= 1,
        Renderer::SensingMethod => fmt == IfdFormat::U16 && min_count >= 1,
        Renderer::CustomRendered => fmt == IfdFormat::U16 && min_count >= 1,
        Renderer::ExposureMode => fmt == IfdFormat::U16 && min_count >= 1,
        Renderer::WhiteBalanceMode => fmt == IfdFormat::U16 && min_count >= 1,
        Renderer::FocalLength35 => fmt == IfdFormat::U16 && min_count >= 1,
        Renderer::SceneCaptureType => fmt == IfdFormat::U16 && min_count >= 1,
        Renderer::GainControl => fmt == IfdFormat::U16 && min_count >= 1,
        Renderer::Contrast => fmt == IfdFormat::U16 && min_count >= 1,
        Renderer::Saturation => fmt == IfdFormat::U16 && min_count >= 1,
        Renderer::Sharpness => fmt == IfdFormat::U16 && min_count >= 1,
        Renderer::SubjectDistanceRange => fmt == IfdFormat::U16 && min_count >= 1,
        Renderer::GpsDiff => fmt == IfdFormat::U16 && min_count >= 1,
        Renderer::Flash => fmt == IfdFormat::U16 && min_count >= 1,
        Renderer::IsoSpeeds => fmt == IfdFormat::U16,
        Renderer::SubjectArea => fmt == IfdFormat::U16,
        Renderer::SubjectLocation => fmt == IfdFormat::U16 && min_count >= 2,
        Renderer::ExposureTime => fmt == IfdFormat::URational && min_count >= 1,
        Renderer::FNumber => fmt == IfdFormat::URational && min_count >= 1,
        Renderer::FocalLength => fmt == IfdFormat::URational && min_count >= 1,
        Renderer::Meters => fmt == IfdFormat::URational && min_count >= 1,
        Renderer::FlashEnergy => fmt == IfdFormat::URational && min_count >= 1,
        Renderer::GpsSpeed => fmt == IfdFormat::URational && min_count >= 1,
        Renderer::GpsBearing => fmt == IfdFormat::URational && min_count >= 1,
        Renderer::GpsDestDistance => fmt == IfdFormat::URational && min_count >= 1,
        Renderer::ApexAv => fmt == IfdFormat::URational && min_count >= 1,
        Renderer::Dms => fmt == IfdFormat::URational && min_count >= 3,
        Renderer::GpsTimestamp => fmt == IfdFormat::URational && min_count >= 3,
        Renderer::LensSpec => fmt == IfdFormat::URational && min_count >= 4,
        Renderer::ApexTv => fmt == IfdFormat::IRational && min_count >= 1,
        Renderer::ApexBrightness => fmt == IfdFormat::IRational && min_count >= 1,
        Renderer::ApexEv => fmt == IfdFormat::IRational && min_count >= 1,
        Renderer::RationalValue => fmt == IfdFormat::URational || fmt == IfdFormat::IRational,
        Renderer::GpsStatus => fmt == IfdFormat::Ascii,
        Renderer::GpsMeasureMode => fmt == IfdFormat::Ascii,
        Renderer::GpsSpeedRef => fmt == IfdFormat::Ascii,
        Renderer::GpsBearingRef => fmt == IfdFormat::Ascii,
        Renderer::GpsDestDistanceRef => fmt == IfdFormat::Ascii,
        Renderer::GpsAltRef => fmt == IfdFormat::U8 && min_count >= 1,
        Renderer::UndefinedAsBlob => fmt == IfdFormat::Undefined,
        Renderer::UndefinedAsAscii => fmt == IfdFormat::Undefined,
        Renderer::UndefinedAsU8 => fmt == IfdFormat::Undefined,
        Renderer::UndefinedAsEncodedString => fmt == IfdFormat::Undefined,
        Renderer::FileSource => fmt == IfdFormat::Undefined,
        Renderer::SceneType => fmt == IfdFormat::Undefined,
        Renderer::Strpass => true,
    }
}

/// The readable string a renderer produces for a value.
pub open spec fn spec_render(r: Renderer, v: TagValueV) -> Seq<char> {
    match r {
        Renderer::Orientation => spec_orientation(v),
        Renderer::ResolutionUnit => spec_resolution_unit(v),
        Renderer::ExposureProgram => spec_exposure_program(v),
        Renderer::MeteringMode => spec_metering_mode(v),
        Renderer::LightSource => spec_light_source(v),
        Renderer::ColorSpace => spec_color_space(v),
        Renderer::SensingMethod => spec_sensing_method(v),
        Renderer::CustomRendered => spec_custom_rendered(v),
        Renderer::ExposureMode => spec_exposure_mode(v),
        Renderer::WhiteBalanceMode => spec_white_balance_mode(v),
        Renderer::FocalLength35 => spec_focal_length_35(v),
        Renderer::SceneCaptureType => spec_scene_capture_type(v),
        Renderer::GainControl => spec_gain_control(v),
        Renderer::Contrast => spec_contrast(v),
        Renderer::Saturation => spec_saturation(v),
        Renderer::Sharpness => spec_sharpness(v),
        Renderer::SubjectDistanceRange => spec_subject_distance_range(v),
        Renderer::GpsDiff => spec_gpsdiff(v),
        Renderer::Flash => spec_flash(v),
        Renderer::IsoSpeeds => spec_iso_speeds(v),
        Renderer::SubjectArea => spec_subject_area(v),
        Renderer::SubjectLocation => spec_subject_location(v),
        Renderer::ExposureTime => spec_exposure_time(v),
        Renderer::FNumber => spec_f_number(v),
        Renderer::FocalLength => spec_focal_length(v),
        Renderer::Meters => spec_meters(v),
        Renderer::FlashEnergy => spec_flash_energy(v),
        Renderer::GpsSpeed => spec_gpsspeed(v),
        Renderer::GpsBearing => spec_gpsbearing(v),
        Renderer::GpsDestDistance => spec_gpsdestdistance(v),
        Renderer::ApexAv => spec_apex_av(v),
        Renderer::Dms => spec_dms(v),
        Renderer::GpsTimestamp => spec_gpstimestamp(v),
        Renderer::LensSpec => spec_lens_spec(v),
        Renderer::ApexTv => spec_apex_tv(v),
        Renderer::ApexBrightness => spec_apex_brightness(v),
        Renderer::ApexEv => spec_apex_ev(v),
        Renderer::RationalValue => spec_rational_value(v),
        Renderer::GpsStatus => spec_gpsstatus(v),
        Renderer::GpsMeasureMode => spec_gpsmeasuremode(v),
        Renderer::GpsSpeedRef => spec_gpsspeedref(v),
        Renderer::GpsBearingRef => spec_gpsbearingref(v),
        Renderer::GpsDestDistanceRef => spec_gpsdestdistanceref(v),
        Renderer::GpsAltRef => spec_gps_alt_ref(v),
        Renderer::UndefinedAsBlob => spec_undefined_as_blob(v),
        Renderer::UndefinedAsAscii => spec_undefined_as_ascii(v),
        Renderer::UndefinedAsU8 => spec_undefined_as_u8(v),
        Renderer::UndefinedAsEncodedString => spec_undefined_as_encoded_string(v),
        Renderer::FileSource => spec_file_source(v),
        Renderer::SceneType => spec_scene_type(v),
        Renderer::Strpass => spec_strpass(v),
    }
}

/// Whether a declared element count lies within a row's bounds (no
/// bounds admit every count).
pub open spec fn spec_count_ok(b: Option<CountBounds>, count: u32) -> bool {
    match b {
        Option::None => true,
        Option::Some((mn, mx)) => mn <= count && count <= mx,
    }
}

/// The smallest element count a bounds option admits.
pub open spec fn spec_min_count(b: Option<CountBounds>) -> nat {
    match b {
        Option::None => 0,
        Option::Some((mn, _mx)) => mn as nat,
    }
}

/// A renderer that accepts a format and minimum count is satisfied by
/// every non-invalid value decoded from an entry of that format with at
/// least that count and a non-empty payload.
pub proof fn lemma_renderer_pre(r: Renderer, e: IfdEntryV, min_count: nat)
    requires
        spec_renderer_accepts(r, e.format, min_count),
        e.count >= min_count,
        !(spec_tag_value_new(e) is Invalid),
        e.data.len() >= 1,
    ensures
        spec_render_pre(r, spec_tag_value_new(e)),
{
}

/// Dispatch a renderer on a value.
pub fn render_value(r: Renderer, e: &TagValue) -> (s: String)
    requires
        spec_render_pre(r, e@),
    ensures
        s@ == spec_render(r, e@),
{
    match r {
        Renderer::Orientation => orientation(e),
        Renderer::ResolutionUnit => resolution_unit(e),
        Renderer::ExposureProgram => exposure_program(e),
        Renderer::MeteringMode => metering_mode(e),
        Renderer::LightSource => light_source(e),
        Renderer::ColorSpace => color_space(e),
        Renderer::SensingMethod => sensing_method(e),
        Renderer::CustomRendered => custom_rendered(e),
        Renderer::ExposureMode => exposure_mode(e),
        Renderer::WhiteBalanceMode => white_balance_mode(e),
        Renderer::FocalLength35 => focal_length_35(e),
        Renderer::SceneCaptureType => scene_capture_type(e),
        Renderer::GainControl => gain_control(e),
        Renderer::Contrast => contrast(e),
        Renderer::Saturation => saturation(e),
        Renderer::Sharpness => sharpness(e),
        Renderer::SubjectDistanceRange => subject_distance_range(e),
        Renderer::GpsDiff => gpsdiff(e),
        Renderer::Flash => flash(e),
        Renderer::IsoSpeeds => iso_speeds(e),
        Renderer::SubjectArea => subject_area(e),
        Renderer::SubjectLocation => subject_location(e),
        Renderer::ExposureTime => exposure_time(e),
        Renderer::FNumber => f_number(e),
        Renderer::FocalLength => focal_length(e),
        Renderer::Meters => meters(e),
        Renderer::FlashEnergy => flash_energy(e),
        Renderer::GpsSpeed => gpsspeed(e),
        Renderer::GpsBearing => gpsbearing(e),
        Renderer::GpsDestDistance => gpsdestdistance(e),
        Renderer::ApexAv => apex_av(e),
        Renderer::Dms => dms(e),
        Renderer::GpsTimestamp => gpstimestamp(e),
        Renderer::LensSpec => lens_spec(e),
        Renderer::ApexTv => apex_tv(e),
        Renderer::ApexBrightness => apex_brightness(e),
        Renderer::ApexEv => apex_ev(e),
        Renderer::RationalValue => rational_value(e),
        Renderer::GpsStatus => gpsstatus(e),
        Renderer::GpsMeasureMode => gpsmeasuremode(e),
        Renderer::GpsSpeedRef => gpsspeedref(e),
        Renderer::GpsBearingRef => gpsbearingref(e),
        Renderer::GpsDestDistanceRef => gpsdestdistanceref(e),
        Renderer::GpsAltRef => gps_alt_ref(e),
        Renderer::UndefinedAsBlob => undefined_as_blob(e),
        Renderer::UndefinedAsAscii => undefined_as_ascii(e),
        Renderer::UndefinedAsU8 => undefined_as_u8(e),
        Renderer::UndefinedAsEncodedString => undefined_as_encoded_string(e),
        Renderer::FileSource => file_source(e),
        Renderer::SceneType => scene_type(e),
        Renderer::Strpass => strpass(e),
    }
}

/// The registry row for a tag code, in the standard namespace when `gps`
/// is false and in the GPS namespace when it is true.
pub open spec fn spec_tag_to_exif(gps: bool, f: u16) -> TagDescriptor {
    if gps {
        match f {
            0x0000 => TagDescriptor {
                tag: IfdTag::Exif(ExifTag::GPSVersionID),
                format: IfdFormat::U8,
                count_bounds: Some((4, 4)),
                renderer: Renderer::Strpass,
            },
            0x0001 => TagDescriptor {
                tag: IfdTag::Exif(ExifTag::GPSLatitudeRef),
                format: IfdFormat::Ascii,
                count_bounds: None,
                renderer: Renderer::Strpass,
            },
            0x0002 => TagDescriptor {
                tag: IfdTag::Exif(ExifTag::GPSLatitude),
                format: IfdFormat::URational,
                count_bounds: Some((3, 3)),
                renderer: Renderer::Dms,
            },
            0x0003 => TagDescriptor {
                tag: IfdTag::Exif(ExifTag::GPSLongitudeRef),
                format: IfdFormat::Ascii,
                count_bounds: None,
                renderer: Renderer::Strpass,
            },
            0x0004 => TagDescriptor {
                tag: IfdTag::Exif(ExifTag::GPSLongitude),
                format: IfdFormat::URational,
                count_bounds: Some((3, 3)),
                renderer: Renderer::Dms,
            },
            0x0005 => TagDescriptor {
                tag: IfdTag::Exif(ExifTag::GPSAltitudeRef),
                format: IfdFormat::U8,
                count_bounds: Some((1, 1)),
                renderer: Renderer::GpsAltRef,
            },
            0x0006 => TagDescriptor {
                tag: IfdTag::Exif(ExifTag::GPSAltitude),
                format: IfdFormat::URational,
                count_bounds: Some((1, 1)),
                renderer: Renderer::Meters,
            },
            0x0007 => TagDescriptor {
                tag: IfdTag::Exif(ExifTag::GPSTimeStamp),
                format: IfdFormat::URational,
                count_bounds: Some((3, 3)),
                renderer: Renderer::GpsTimestamp,
            },
            0x0008 => TagDescriptor {
                tag: IfdTag::Exif(ExifTag::GPSSatellites),
                format: IfdFormat::Ascii,
                count_bounds: None,
                renderer: Renderer::Strpass,
            },
            0x0009 => TagDescriptor {
                tag: IfdTag::Exif(ExifTag::GPSStatus),
                format: IfdFormat::Ascii,
                count_bounds: None,
                renderer: Renderer::GpsStatus,
            },
            0x000a => TagDescriptor {
                tag: IfdTag::Exif(ExifTag::GPSMeasureMode),
                format: IfdFormat::Ascii,
                count_bounds: None,
                renderer: Renderer::GpsMeasureMode,
            },
            0x000b => TagDescriptor {
                tag: IfdTag::Exif(ExifTag::GPSDOP),
                format: IfdFormat::URational,
                count_bounds: Some((1, 1)),
                renderer: Renderer::RationalValue,
            },
            0x000c => TagDescriptor {
                tag: IfdTag::Exif(ExifTag::GPSSpeedRef),
                format: IfdFormat::Ascii,
                count_bounds: None,
                renderer: Renderer::GpsSpeedRef,
            },
            0x000d => TagDescriptor {
                tag: IfdTag::Exif(ExifTag::GPSSpeed),
                format: IfdFormat::URational,
                count_bounds: Some((1, 1)),
                renderer: Renderer::GpsSpeed,
            },
            0x000e => TagDescriptor {
                tag: IfdTag::Exif(ExifTag::GPSTrackRef),
                format: IfdFormat::Ascii,
                count_bounds: None,
                renderer: Renderer::GpsBearingRef,
            },
            0x000f => TagDescriptor {
                tag: IfdTag::Exif(ExifTag::GPSTrack),
                format: IfdFormat::URational,
                count_bounds: Some((1, 1)),
                renderer: Renderer::GpsBearing,
            },
            0x0010 => TagDescriptor {
                tag: IfdTag::Exif(ExifTag::GPSImgDirectionRef),
                format: IfdFormat::Ascii,
                count_bounds: None,
                renderer: Renderer::GpsBearingRef,
            },
            0x0011 => TagDescriptor {
                tag: IfdTag::Exif(ExifTag::GPSImgDirection),
                format: IfdFormat::URational,
                count_bounds: Some((1, 1)),
                renderer: Renderer::GpsBearing,
            },
            0x0012 => TagDescriptor {
                tag: IfdTag::Exif(ExifTag::GPSMapDatum),
                format: IfdFormat::Ascii,
                count_bounds: None,
                renderer: Renderer::Strpass,
            },
            0x0013 => TagDescriptor {
                tag: IfdTag::Exif(ExifTag::GPSDestLatitudeRef),
                format: IfdFormat::Ascii,
                count_bounds: None,
                renderer: Renderer::Strpass,
            },
            0x0014 => TagDescriptor {
                tag: IfdTag::Exif(ExifTag::GPSDestLatitude),
                format: IfdFormat::URational,
                count_bounds: Some((3, 3)),
                renderer: Renderer::Dms,
            },
            0x0015 => TagDescriptor {
                tag: IfdTag::Exif(ExifTag::GPSDestLongitudeRef),
                format: IfdFormat::Ascii,
                count_bounds: None,
                renderer: Renderer::Strpass,
            },
            0x0016 => TagDescriptor {
                tag: IfdTag::Exif(ExifTag::GPSDestLongitude),
                format: IfdFormat::URational,
                count_bounds: Some((3, 3)),
                renderer: Renderer::Dms,
            },
            0x0017 => TagDescriptor {
                tag: IfdTag::Exif(ExifTag::GPSDestBearingRef),
                format: IfdFormat::Ascii,
                count_bounds: None,
                renderer: Renderer::GpsBearingRef,
            },
            0x0018 => TagDescriptor {
                tag: IfdTag::Exif(ExifTag::GPSDestBearing),
                format: IfdFormat::URational,
                count_bounds: Some((1, 1)),
                renderer: Renderer::GpsBearing,
            },
            0x0019 => TagDescriptor {
                tag: IfdTag::Exif(ExifTag::GPSDestDistanceRef),
                format: IfdFormat::Ascii,
                count_bounds: None,
                renderer: Renderer::GpsDestDistanceRef,
            },
            0x001a => TagDescriptor {
                tag: IfdTag::Exif(ExifTag::GPSDestDistance),
                format: IfdFormat::URational,
                count_bounds: Some((1, 1)),
                renderer: Renderer::GpsDestDistance,
            },
            0x001b => TagDescriptor {
                tag: IfdTag::Exif(ExifTag::GPSProcessingMethod),
                format: IfdFormat::Undefined,
                count_bounds: None,
                renderer: Renderer::UndefinedAsEncodedString,
            },
            0x001c => TagDescriptor {
                tag: IfdTag::Exif(ExifTag::GPSAreaInformation),
                format: IfdFormat::Undefined,
                count_bounds: None,
                renderer: Renderer::UndefinedAsEncodedString,
            },
            0x001d => TagDescriptor {
                tag: IfdTag::Exif(ExifTag::GPSDateStamp),
                format: IfdFormat::Ascii,
                count_bounds: None,
                renderer: Renderer::Strpass,
            },
            0x001e => TagDescriptor {
                tag: IfdTag::Exif(ExifTag::GPSDifferential),
                format: IfdFormat::U16,
                count_bounds: Some((1, 1)),
                renderer: Renderer::GpsDiff,
            },
            _ => TagDescriptor {
                tag: IfdTag::Unknown(f),
                format: IfdFormat::Unknown,
                count_bounds: None,
                renderer: Renderer::Strpass,
            },
        }
    } else {
        match f {
            0x010e => TagDescriptor {
                tag: IfdTag::Exif(ExifTag::ImageDescription),
                format: IfdFormat::Ascii,
                count_bounds: None,
                renderer: Renderer::Strpass,
            },
            0x010f => TagDescriptor {
                tag: IfdTag::Exif(ExifTag::Make),
                format: IfdFormat::Ascii,
                count_bounds: None,
                renderer: Renderer::Strpass,
            },
            0x013c => TagDescriptor {
                tag: IfdTag::Exif(ExifTag::HostComputer),
                format: IfdFormat::Ascii,
                count_bounds: None,
                renderer: Renderer::Strpass,
            },
            0x0110 => TagDescriptor {
                tag: IfdTag::Exif(ExifTag::Model),
                format: IfdFormat::Ascii,
                count_bounds: None,
                renderer: Renderer::Strpass,
            },
            0x0112 => TagDescriptor {
                tag: IfdTag::Exif(ExifTag::Orientation),
                format: IfdFormat::U16,
                count_bounds: Some((1, 1)),
                renderer: Renderer::Orientation,
            },
            0x011a => TagDescriptor {
                tag: IfdTag::Exif(ExifTag::XResolution),
                format: IfdFormat::URational,
                count_bounds: Some((1, 1)),
                renderer: Renderer::RationalValue,
            },
            0x011b => TagDescriptor {
                tag: IfdTag::Exif(ExifTag::YResolution),
                format: IfdFormat::URational,
                count_bounds: Some((1, 1)),
                renderer: Renderer::RationalValue,
            },
            0x0128 => TagDescriptor {
                tag: IfdTag::Exif(ExifTag::ResolutionUnit),
                format: IfdFormat::U16,
                count_bounds: Some((1, 1)),
                renderer: Renderer::ResolutionUnit,
            },
            0x0131 => TagDescriptor {
                tag: IfdTag::Exif(ExifTag::Software),
                format: IfdFormat::Ascii,
                count_bounds: None,
                renderer: Renderer::Strpass,
            },
            0x0132 => TagDescriptor {
                tag: IfdTag::Exif(ExifTag::DateTime),
                format: IfdFormat::Ascii,
                count_bounds: None,
                renderer: Renderer::Strpass,
            },
            0x013e => TagDescriptor {
                tag: IfdTag::Exif(ExifTag::WhitePoint),
                format: IfdFormat::URational,
                count_bounds: Some((2, 2)),
                renderer: Renderer::RationalValue,
            },
            0x013f => TagDescriptor {
                tag: IfdTag::Exif(ExifTag::PrimaryChromaticities),
                format: IfdFormat::URational,
                count_bounds: Some((6, 6)),
                renderer: Renderer::RationalValue,
            },
            0x0211 => TagDescriptor {
                tag: IfdTag::Exif(ExifTag::YCbCrCoefficients),
                format: IfdFormat::URational,
                count_bounds: Some((3, 3)),
                renderer: Renderer::RationalValue,
            },
            0x0214 => TagDescriptor {
                tag: IfdTag::Exif(ExifTag::ReferenceBlackWhite),
                format: IfdFormat::URational,
                count_bounds: Some((6, 6)),
                renderer: Renderer::RationalValue,
            },
            0x8298 => TagDescriptor {
                tag: IfdTag::Exif(ExifTag::Copyright),
                format: IfdFormat::Ascii,
                count_bounds: None,
                renderer: Renderer::Strpass,
            },
            0x8769 => TagDescriptor {
                tag: IfdTag::Exif(ExifTag::ExifOffset),
                format: IfdFormat::U32,
                count_bounds: Some((1, 1)),
                renderer: Renderer::Strpass,
            },
            0x8825 => TagDescriptor {
                tag: IfdTag::Exif(ExifTag::GPSInfo),
                format: IfdFormat::U32,
                count_bounds: Some((1, 1)),
                renderer: Renderer::Strpass,
            },
            0x829a => TagDescriptor {
                tag: IfdTag::Exif(ExifTag::ExposureTime),
                format: IfdFormat::URational,
                count_bounds: Some((1, 1)),
                renderer: Renderer::ExposureTime,
            },
            0x829d => TagDescriptor {
                tag: IfdTag::Exif(ExifTag::FNumber),
                format: IfdFormat::URational,
                count_bounds: Some((1, 1)),
                renderer: Renderer::FNumber,
            },
            0x8822 => TagDescriptor {
                tag: IfdTag::Exif(ExifTag::ExposureProgram),
                format: IfdFormat::U16,
                count_bounds: Some((1, 1)),
                renderer: Renderer::ExposureProgram,
            },
            0x8824 => TagDescriptor {
                tag: IfdTag::Exif(ExifTag::SpectralSensitivity),
                format: IfdFormat::Ascii,
                count_bounds: None,
                renderer: Renderer::Strpass,
            },
            0x8827 => TagDescriptor {
                tag: IfdTag::Exif(ExifTag::PhotographicSensitivity),
                format: IfdFormat::U16,
                count_bounds: Some((1, 3)),
                renderer: Renderer::IsoSpeeds,
            },
            0x8828 => TagDescriptor {
                tag: IfdTag::Exif(ExifTag::OECF),
                format: IfdFormat::Undefined,
                count_bounds: None,
                renderer: Renderer::UndefinedAsBlob,
            },
            0x9000 => TagDescriptor {
                tag: IfdTag::Exif(ExifTag::ExifVersion),
                format: IfdFormat::Undefined,
                count_bounds: None,
                renderer: Renderer::UndefinedAsAscii,
            },
            0x9003 => TagDescriptor {
                tag: IfdTag::Exif(ExifTag::DateTimeOriginal),
                format: IfdFormat::Ascii,
                count_bounds: None,
                renderer: Renderer::Strpass,
            },
            0x9004 => TagDescriptor {
                tag: IfdTag::Exif(ExifTag::DateTimeDigitized),
                format: IfdFormat::Ascii,
                count_bounds: None,
                renderer: Renderer::Strpass,
            },
            0x9201 => TagDescriptor {
                tag: IfdTag::Exif(ExifTag::ShutterSpeedValue),
                format: IfdFormat::IRational,
                count_bounds: Some((1, 1)),
                renderer: Renderer::ApexTv,
            },
            0x9202 => TagDescriptor {
                tag: IfdTag::Exif(ExifTag::ApertureValue),
                format: IfdFormat::URational,
                count_bounds: Some((1, 1)),
                renderer: Renderer::ApexAv,
            },
            0x9203 => TagDescriptor {
                tag: IfdTag::Exif(ExifTag::BrightnessValue),
                format: IfdFormat::IRational,
                count_bounds: Some((1, 1)),
                renderer: Renderer::ApexBrightness,
            },
            0x9204 => TagDescriptor {
                tag: IfdTag::Exif(ExifTag::ExposureBiasValue),
                format: IfdFormat::IRational,
                count_bounds: Some((1, 1)),
                renderer: Renderer::ApexEv,
            },
            0x9205 => TagDescriptor {
                tag: IfdTag::Exif(ExifTag::MaxApertureValue),
                format: IfdFormat::URational,
                count_bounds: Some((1, 1)),
                renderer: Renderer::ApexAv,
            },
            0x9206 => TagDescriptor {
                tag: IfdTag::Exif(ExifTag::SubjectDistance),
                format: IfdFormat::URational,
                count_bounds: Some((1, 1)),
                renderer: Renderer::Meters,
            },
            0x9207 => TagDescriptor {
                tag: IfdTag::Exif(ExifTag::MeteringMode),
                format: IfdFormat::U16,
                count_bounds: Some((1, 1)),
                renderer: Renderer::MeteringMode,
            },
            0x9208 => TagDescriptor {
                tag: IfdTag::Exif(ExifTag::LightSource),
                format: IfdFormat::U16,
                count_bounds: Some((1, 1)),
                renderer: Renderer::LightSource,
            },
            0x9209 => TagDescriptor {
                tag: IfdTag::Exif(ExifTag::Flash),
                format: IfdFormat::U16,
                count_bounds: Some((1, 2)),
                renderer: Renderer::Flash,
            },
            0x920a => TagDescriptor {
                tag: IfdTag::Exif(ExifTag::FocalLength),
                format: IfdFormat::URational,
                count_bounds: Some((1, 1)),
                renderer: Renderer::FocalLength,
            },
            0x9214 => TagDescriptor {
                tag: IfdTag::Exif(ExifTag::SubjectArea),
                format: IfdFormat::U16,
                count_bounds: Some((2, 4)),
                renderer: Renderer::SubjectArea,
            },
            0x927c => TagDescriptor {
                tag: IfdTag::Exif(ExifTag::MakerNote),
                format: IfdFormat::Undefined,
                count_bounds: None,
                renderer: Renderer::UndefinedAsBlob,
            },
            0x9286 => TagDescriptor {
                tag: IfdTag::Exif(ExifTag::UserComment),
                format: IfdFormat::Undefined,
                count_bounds: None,
                renderer: Renderer::UndefinedAsEncodedString,
            },
            0xa000 => TagDescriptor {
                tag: IfdTag::Exif(ExifTag::FlashpixVersion),
                format: IfdFormat::Undefined,
                count_bounds: None,
                renderer: Renderer::UndefinedAsAscii,
            },
            0xa001 => TagDescriptor {
                tag: IfdTag::Exif(ExifTag::ColorSpace),
                format: IfdFormat::U16,
                count_bounds: Some((1, 1)),
                renderer: Renderer::ColorSpace,
            },
            0xa004 => TagDescriptor {
                tag: IfdTag::Exif(ExifTag::RelatedSoundFile),
                format: IfdFormat::Ascii,
                count_bounds: None,
                renderer: Renderer::Strpass,
            },
            0xa20b => TagDescriptor {
                tag: IfdTag::Exif(ExifTag::FlashEnergy),
                format: IfdFormat::URational,
                count_bounds: Some((1, 1)),
                renderer: Renderer::FlashEnergy,
            },
            0xa20e => TagDescriptor {
                tag: IfdTag::Exif(ExifTag::FocalPlaneXResolution),
                format: IfdFormat::URational,
                count_bounds: Some((1, 1)),
                renderer: Renderer::RationalValue,
            },
            0xa20f => TagDescriptor {
                tag: IfdTag::Exif(ExifTag::FocalPlaneYResolution),
                format: IfdFormat::URational,
                count_bounds: Some((1, 1)),
                renderer: Renderer::RationalValue,
            },
            0xa210 => TagDescriptor {
                tag: IfdTag::Exif(ExifTag::FocalPlaneResolutionUnit),
                format: IfdFormat::U16,
                count_bounds: Some((1, 1)),
                renderer: Renderer::ResolutionUnit,
            },
            0xa214 => TagDescriptor {
                tag: IfdTag::Exif(ExifTag::SubjectLocation),
                format: IfdFormat::U16,
                count_bounds: Some((2, 2)),
                renderer: Renderer::SubjectLocation,
            },
            0xa215 => TagDescriptor {
                tag: IfdTag::Exif(ExifTag::ExposureIndex),
                format: IfdFormat::URational,
                count_bounds: Some((1, 1)),
                renderer: Renderer::RationalValue,
            },
            0xa217 => TagDescriptor {
                tag: IfdTag::Exif(ExifTag::SensingMethod),
                format: IfdFormat::U16,
                count_bounds: Some((1, 1)),
                renderer: Renderer::SensingMethod,
            },
            0xa300 => TagDescriptor {
                tag: IfdTag::Exif(ExifTag::FileSource),
                format: IfdFormat::Undefined,
                count_bounds: Some((1, 1)),
                renderer: Renderer::FileSource,
            },
            0xa301 => TagDescriptor {
                tag: IfdTag::Exif(ExifTag::SceneType),
                format: IfdFormat::Undefined,
                count_bounds: Some((1, 1)),
                renderer: Renderer::SceneType,
            },
            0xa302 => TagDescriptor {
                tag: IfdTag::Exif(ExifTag::CFAPattern),
                format: IfdFormat::Undefined,
                count_bounds: None,
                renderer: Renderer::UndefinedAsU8,
            },
            0xa401 => TagDescriptor {
                tag: IfdTag::Exif(ExifTag::CustomRendered),
                format: IfdFormat::U16,
                count_bounds: Some((1, 1)),
                renderer: Renderer::CustomRendered,
            },
            0xa402 => TagDescriptor {
                tag: IfdTag::Exif(ExifTag::ExposureMode),
                format: IfdFormat::U16,
                count_bounds: Some((1, 1)),
                renderer: Renderer::ExposureMode,
            },
            0xa403 => TagDescriptor {
                tag: IfdTag::Exif(ExifTag::WhiteBalance),
                format: IfdFormat::U16,
                count_bounds: Some((1, 1)),
                renderer: Renderer::WhiteBalanceMode,
            },
            0xa404 => TagDescriptor {
                tag: IfdTag::Exif(ExifTag::DigitalZoomRatio),
                format: IfdFormat::URational,
                count_bounds: Some((1, 1)),
                renderer: Renderer::RationalValue,
            },
            0xa405 => TagDescriptor {
                tag: IfdTag::Exif(ExifTag::FocalLengthIn35mmFilm),
                format: IfdFormat::U16,
                count_bounds: Some((1, 1)),
                renderer: Renderer::FocalLength35,
            },
            0xa406 => TagDescriptor {
                tag: IfdTag::Exif(ExifTag::SceneCaptureType),
                format: IfdFormat::U16,
                count_bounds: Some((1, 1)),
                renderer: Renderer::SceneCaptureType,
            },
            0xa407 => TagDescriptor {
                tag: IfdTag::Exif(ExifTag::GainControl),
                format: IfdFormat::U16,
                count_bounds: Some((1, 1)),
                renderer: Renderer::GainControl,
            },
            0xa408 => TagDescriptor {
                tag: IfdTag::Exif(ExifTag::Contrast),
                format: IfdFormat::U16,
                count_bounds: Some((1, 1)),
                renderer: Renderer::Contrast,
            },
            0xa409 => TagDescriptor {
                tag: IfdTag::Exif(ExifTag::Saturation),
                format: IfdFormat::U16,
                count_bounds: Some((1, 1)),
                renderer: Renderer::Saturation,
            },
            0xa40a => TagDescriptor {
                tag: IfdTag::Exif(ExifTag::Sharpness),
                format: IfdFormat::U16,
                count_bounds: Some((1, 1)),
                renderer: Renderer::Sharpness,
            },
            0xa432 => TagDescriptor {
                tag: IfdTag::Exif(ExifTag::LensSpecification),
                format: IfdFormat::URational,
                count_bounds: Some((4, 4)),
                renderer: Renderer::LensSpec,
            },
            0xa433 => TagDescriptor {
                tag: IfdTag::Exif(ExifTag::LensMake),
                format: IfdFormat::Ascii,
                count_bounds: None,
                renderer: Renderer::Strpass,
            },
            0xa434 => TagDescriptor {
                tag: IfdTag::Exif(ExifTag::LensModel),
                format: IfdFormat::Ascii,
                count_bounds: None,
                renderer: Renderer::Strpass,
            },
            0xa40b => TagDescriptor {
                tag: IfdTag::Exif(ExifTag::DeviceSettingDescription),
                format: IfdFormat::Undefined,
                count_bounds: None,
                renderer: Renderer::UndefinedAsBlob,
            },
            0xa40c => TagDescriptor {
                tag: IfdTag::Exif(ExifTag::SubjectDistanceRange),
                format: IfdFormat::U16,
                count_bounds: Some((1, 1)),
                renderer: Renderer::SubjectDistanceRange,
            },
            0xa420 => TagDescriptor {
                tag: IfdTag::Exif(ExifTag::ImageUniqueID),
                format: IfdFormat::Ascii,
                count_bounds: None,
                renderer: Renderer::Strpass,
            },
            _ => TagDescriptor {
                tag: IfdTag::Unknown(f),
                format: IfdFormat::Unknown,
                count_bounds: None,
                renderer: Renderer::Strpass,
            },
        }
    }
}

/// Look up a numeric tag code in the registry.  Total over the whole
/// 16-bit code space in both namespaces: every code gets a descriptor,
/// the descriptor's tag carries the looked-up code, its format and count
/// bounds are consistent, and its renderer accepts every well-formed
/// value of that format within the bounds.
pub fn tag_to_exif(gps: bool, f: u16) -> (d: TagDescriptor)
    ensures
        d == spec_tag_to_exif(gps, f),
        spec_format_count_bounds_valid(d.format, d.count_bounds),
        spec_ifd_tag_code(d.tag) == f,
        spec_renderer_accepts(d.renderer, d.format, spec_min_count(d.count_bounds)),
{
    if gps {
        match f {
                0x0000 => TagDescriptor {
                    tag: IfdTag::Exif(ExifTag::GPSVersionID),
                    format: IfdFormat::U8,
                    count_bounds: Some((4, 4)),
                    renderer: Renderer::Strpass,
                },
                0x0001 => TagDescriptor {
                    tag: IfdTag::Exif(ExifTag::GPSLatitudeRef),
                    format: IfdFormat::Ascii,
                    count_bounds: None,
                    renderer: Renderer::Strpass,
                },
                0x0002 => TagDescriptor {
                    tag: IfdTag::Exif(ExifTag::GPSLatitude),
                    format: IfdFormat::URational,
                    count_bounds: Some((3, 3)),
                    renderer: Renderer::Dms,
                },
                0x0003 => TagDescriptor {
                    tag: IfdTag::Exif(ExifTag::GPSLongitudeRef),
                    format: IfdFormat::Ascii,
                    count_bounds: None,
                    renderer: Renderer::Strpass,
                },
                0x0004 => TagDescriptor {
                    tag: IfdTag::Exif(ExifTag::GPSLongitude),
                    format: IfdFormat::URational,
                    count_bounds: Some((3, 3)),
                    renderer: Renderer::Dms,
                },
                0x0005 => TagDescriptor {
                    tag: IfdTag::Exif(ExifTag::GPSAltitudeRef),
                    format: IfdFormat::U8,
                    count_bounds: Some((1, 1)),
                    renderer: Renderer::GpsAltRef,
                },
                0x0006 => TagDescriptor {
                    tag: IfdTag::Exif(ExifTag::GPSAltitude),
                    format: IfdFormat::URational,
                    count_bounds: Some((1, 1)),
                    renderer: Renderer::Meters,
                },
                0x0007 => TagDescriptor {
                    tag: IfdTag::Exif(ExifTag::GPSTimeStamp),
                    format: IfdFormat::URational,
                    count_bounds: Some((3, 3)),
                    renderer: Renderer::GpsTimestamp,
                },
                0x0008 => TagDescriptor {
                    tag: IfdTag::Exif(ExifTag::GPSSatellites),
                    format: IfdFormat::Ascii,
                    count_bounds: None,
                    renderer: Renderer::Strpass,
                },
                0x0009 => TagDescriptor {
                    tag: IfdTag::Exif(ExifTag::GPSStatus),
                    format: IfdFormat::Ascii,
                    count_bounds: None,
                    renderer: Renderer::GpsStatus,
                },
                0x000a => TagDescriptor {
                    tag: IfdTag::Exif(ExifTag::GPSMeasureMode),
                    format: IfdFormat::Ascii,
                    count_bounds: None,
                    renderer: Renderer::GpsMeasureMode,
                },
                0x000b => TagDescriptor {
                    tag: IfdTag::Exif(ExifTag::GPSDOP),
                    format: IfdFormat::URational,
                    count_bounds: Some((1, 1)),
                    renderer: Renderer::RationalValue,
                },
                0x000c => TagDescriptor {
                    tag: IfdTag::Exif(ExifTag::GPSSpeedRef),
                    format: IfdFormat::Ascii,
                    count_bounds: None,
                    renderer: Renderer::GpsSpeedRef,
                },
                0x000d => TagDescriptor {
                    tag: IfdTag::Exif(ExifTag::GPSSpeed),
                    format: IfdFormat::URational,
                    count_bounds: Some((1, 1)),
                    renderer: Renderer::GpsSpeed,
                },
                0x000e => TagDescriptor {
                    tag: IfdTag::Exif(ExifTag::GPSTrackRef),
                    format: IfdFormat::Ascii,
                    count_bounds: None,
                    renderer: Renderer::GpsBearingRef,
                },
                0x000f => TagDescriptor {
                    tag: IfdTag::Exif(ExifTag::GPSTrack),
                    format: IfdFormat::URational,
                    count_bounds: Some((1, 1)),
                    renderer: Renderer::GpsBearing,
                },
                0x0010 => TagDescriptor {
                    tag: IfdTag::Exif(ExifTag::GPSImgDirectionRef),
                    format: IfdFormat::Ascii,
                    count_bounds: None,
                    renderer: Renderer::GpsBearingRef,
                },
                0x0011 => TagDescriptor {
                    tag: IfdTag::Exif(ExifTag::GPSImgDirection),
                    format: IfdFormat::URational,
                    count_bounds: Some((1, 1)),
                    renderer: Renderer::GpsBearing,
                },
                0x0012 => TagDescriptor {
                    tag: IfdTag::Exif(ExifTag::GPSMapDatum),
                    format: IfdFormat::Ascii,
                    count_bounds: None,
                    renderer: Renderer::Strpass,
                },
                0x0013 => TagDescriptor {
                    tag: IfdTag::Exif(ExifTag::GPSDestLatitudeRef),
                    format: IfdFormat::Ascii,
                    count_bounds: None,
                    renderer: Renderer::Strpass,
                },
                0x0014 => TagDescriptor {
                    tag: IfdTag::Exif(ExifTag::GPSDestLatitude),
                    format: IfdFormat::URational,
                    count_bounds: Some((3, 3)),
                    renderer: Renderer::Dms,
                },
                0x0015 => TagDescriptor {
                    tag: IfdTag::Exif(ExifTag::GPSDestLongitudeRef),
                    format: IfdFormat::Ascii,
                    count_bounds: None,
                    renderer: Renderer::Strpass,
                },
                0x0016 => TagDescriptor {
                    tag: IfdTag::Exif(ExifTag::GPSDestLongitude),
                    format: IfdFormat::URational,
                    count_bounds: Some((3, 3)),
                    renderer: Renderer::Dms,
                },
                0x0017 => TagDescriptor {
                    tag: IfdTag::Exif(ExifTag::GPSDestBearingRef),
                    format: IfdFormat::Ascii,
                    count_bounds: None,
                    renderer: Renderer::GpsBearingRef,
                },
                0x0018 => TagDescriptor {
                    tag: IfdTag::Exif(ExifTag::GPSDestBearing),
                    format: IfdFormat::URational,
                    count_bounds: Some((1, 1)),
                    renderer: Renderer::GpsBearing,
                },
                0x0019 => TagDescriptor {
                    tag: IfdTag::Exif(ExifTag::GPSDestDistanceRef),
                    format: IfdFormat::Ascii,
                    count_bounds: None,
                    renderer: Renderer::GpsDestDistanceRef,
                },
                0x001a => TagDescriptor {
                    tag: IfdTag::Exif(ExifTag::GPSDestDistance),
                    format: IfdFormat::URational,
                    count_bounds: Some((1, 1)),
                    renderer: Renderer::GpsDestDistance,
                },
                0x001b => TagDescriptor {
                    tag: IfdTag::Exif(ExifTag::GPSProcessingMethod),
                    format: IfdFormat::Undefined,
                    count_bounds: None,
                    renderer: Renderer::UndefinedAsEncodedString,
                },
                0x001c => TagDescriptor {
                    tag: IfdTag::Exif(ExifTag::GPSAreaInformation),
                    format: IfdFormat::Undefined,
                    count_bounds: None,
                    renderer: Renderer::UndefinedAsEncodedString,
                },
                0x001d => TagDescriptor {
                    tag: IfdTag::Exif(ExifTag::GPSDateStamp),
                    format: IfdFormat::Ascii,
                    count_bounds: None,
                    renderer: Renderer::Strpass,
                },
                0x001e => TagDescriptor {
                    tag: IfdTag::Exif(ExifTag::GPSDifferential),
                    format: IfdFormat::U16,
                    count_bounds: Some((1, 1)),
                    renderer: Renderer::GpsDiff,
                },
            _ => TagDescriptor {
                tag: IfdTag::Unknown(f),
                format: IfdFormat::Unknown,
                count_bounds: None,
                renderer: Renderer::Strpass,
            },
        }
    } else {
        match f {
                0x010e => TagDescriptor {
                    tag: IfdTag::Exif(ExifTag::ImageDescription),
                    format: IfdFormat::Ascii,
                    count_bounds: None,
                    renderer: Renderer::Strpass,
                },
                0x010f => TagDescriptor {
                    tag: IfdTag::Exif(ExifTag::Make),
                    format: IfdFormat::Ascii,
                    count_bounds: None,
                    renderer: Renderer::Strpass,
                },
                0x013c => TagDescriptor {
                    tag: IfdTag::Exif(ExifTag::HostComputer),
                    format: IfdFormat::Ascii,
                    count_bounds: None,
                    renderer: Renderer::Strpass,
                },
                0x0110 => TagDescriptor {
                    tag: IfdTag::Exif(ExifTag::Model),
                    format: IfdFormat::Ascii,
                    count_bounds: None,
                    renderer: Renderer::Strpass,
                },
                0x0112 => TagDescriptor {
                    tag: IfdTag::Exif(ExifTag::Orientation),
                    format: IfdFormat::U16,
                    count_bounds: Some((1, 1)),
                    renderer: Renderer::Orientation,
                },
                0x011a => TagDescriptor {
                    tag: IfdTag::Exif(ExifTag::XResolution),
                    format: IfdFormat::URational,
                    count_bounds: Some((1, 1)),
                    renderer: Renderer::RationalValue,
                },
                0x011b => TagDescriptor {
                    tag: IfdTag::Exif(ExifTag::YResolution),
                    format: IfdFormat::URational,
                    count_bounds: Some((1, 1)),
                    renderer: Renderer::RationalValue,
                },
                0x0128 => TagDescriptor {
                    tag: IfdTag::Exif(ExifTag::ResolutionUnit),
                    format: IfdFormat::U16,
                    count_bounds: Some((1, 1)),
                    renderer: Renderer::ResolutionUnit,
                },
                0x0131 => TagDescriptor {
                    tag: IfdTag::Exif(ExifTag::Software),
                    format: IfdFormat::Ascii,
                    count_bounds: None,
                    renderer: Renderer::Strpass,
                },
                0x0132 => TagDescriptor {
                    tag: IfdTag::Exif(ExifTag::DateTime),
                    format: IfdFormat::Ascii,
                    count_bounds: None,
                    renderer: Renderer::Strpass,
                },
                0x013e => TagDescriptor {
                    tag: IfdTag::Exif(ExifTag::WhitePoint),
                    format: IfdFormat::URational,
                    count_bounds: Some((2, 2)),
                    renderer: Renderer::RationalValue,
                },
                0x013f => TagDescriptor {
                    tag: IfdTag::Exif(ExifTag::PrimaryChromaticities),
                    format: IfdFormat::URational,
                    count_bounds: Some((6, 6)),
                    renderer: Renderer::RationalValue,
                },
                0x0211 => TagDescriptor {
                    tag: IfdTag::Exif(ExifTag::YCbCrCoefficients),
                    format: IfdFormat::URational,
                    count_bounds: Some((3, 3)),
                    renderer: Renderer::RationalValue,
                },
                0x0214 => TagDescriptor {
                    tag: IfdTag::Exif(ExifTag::ReferenceBlackWhite),
                    format: IfdFormat::URational,
                    count_bounds: Some((6, 6)),
                    renderer: Renderer::RationalValue,
                },
                0x8298 => TagDescriptor {
                    tag: IfdTag::Exif(ExifTag::Copyright),
                    format: IfdFormat::Ascii,
                    count_bounds: None,
                    renderer: Renderer::Strpass,
                },
                0x8769 => TagDescriptor {
                    tag: IfdTag::Exif(ExifTag::ExifOffset),
                    format: IfdFormat::U32,
                    count_bounds: Some((1, 1)),
                    renderer: Renderer::Strpass,
                },
                0x8825 => TagDescriptor {
                    tag: IfdTag::Exif(ExifTag::GPSInfo),
                    format: IfdFormat::U32,
                    count_bounds: Some((1, 1)),
                    renderer: Renderer::Strpass,
                },
                0x829a => TagDescriptor {
                    tag: IfdTag::Exif(ExifTag::ExposureTime),
                    format: IfdFormat::URational,
                    count_bounds: Some((1, 1)),
                    renderer: Renderer::ExposureTime,
                },
                0x829d => TagDescriptor {
                    tag: IfdTag::Exif(ExifTag::FNumber),
                    format: IfdFormat::URational,
                    count_bounds: Some((1, 1)),
                    renderer: Renderer::FNumber,
                },
                0x8822 => TagDescriptor {
                    tag: IfdTag::Exif(ExifTag::ExposureProgram),
                    format: IfdFormat::U16,
                    count_bounds: Some((1, 1)),
                    renderer: Renderer::ExposureProgram,
                },
                0x8824 => TagDescriptor {
                    tag: IfdTag::Exif(ExifTag::SpectralSensitivity),
                    format: IfdFormat::Ascii,
                    count_bounds: None,
                    renderer: Renderer::Strpass,
                },
                0x8827 => TagDescriptor {
                    tag: IfdTag::Exif(ExifTag::PhotographicSensitivity),
                    format: IfdFormat::U16,
                    count_bounds: Some((1, 3)),
                    renderer: Renderer::IsoSpeeds,
                },
                0x8828 => TagDescriptor {
                    tag: IfdTag::Exif(ExifTag::OECF),
                    format: IfdFormat::Undefined,
                    count_bounds: None,
                    renderer: Renderer::UndefinedAsBlob,
                },
                0x9000 => TagDescriptor {
                    tag: IfdTag::Exif(ExifTag::ExifVersion),
                    format: IfdFormat::Undefined,
                    count_bounds: None,
                    renderer: Renderer::UndefinedAsAscii,
                },
                0x9003 => TagDescriptor {
                    tag: IfdTag::Exif(ExifTag::DateTimeOriginal),
                    format: IfdFormat::Ascii,
                    count_bounds: None,
                    renderer: Renderer::Strpass,
                },
                0x9004 => TagDescriptor {
                    tag: IfdTag::Exif(ExifTag::DateTimeDigitized),
                    format: IfdFormat::Ascii,
                    count_bounds: None,
                    renderer: Renderer::Strpass,
                },
                0x9201 => TagDescriptor {
                    tag: IfdTag::Exif(ExifTag::ShutterSpeedValue),
                    format: IfdFormat::IRational,
                    count_bounds: Some((1, 1)),
                    renderer: Renderer::ApexTv,
                },
                0x9202 => TagDescriptor {
                    tag: IfdTag::Exif(ExifTag::ApertureValue),
                    format: IfdFormat::URational,
                    count_bounds: Some((1, 1)),
                    renderer: Renderer::ApexAv,
                },
                0x9203 => TagDescriptor {
                    tag: IfdTag::Exif(ExifTag::BrightnessValue),
                    format: IfdFormat::IRational,
                    count_bounds: Some((1, 1)),
                    renderer: Renderer::ApexBrightness,
                },
                0x9204 => TagDescriptor {
                    tag: IfdTag::Exif(ExifTag::ExposureBiasValue),
                    format: IfdFormat::IRational,
                    count_bounds: Some((1, 1)),
                    renderer: Renderer::ApexEv,
                },
                0x9205 => TagDescriptor {
                    tag: IfdTag::Exif(ExifTag::MaxApertureValue),
                    format: IfdFormat::URational,
                    count_bounds: Some((1, 1)),
                    renderer: Renderer::ApexAv,
                },
                0x9206 => TagDescriptor {
                    tag: IfdTag::Exif(ExifTag::SubjectDistance),
                    format: IfdFormat::URational,
                    count_bounds: Some((1, 1)),
                    renderer: Renderer::Meters,
                },
                0x9207 => TagDescriptor {
                    tag: IfdTag::Exif(ExifTag::MeteringMode),
                    format: IfdFormat::U16,
                    count_bounds: Some((1, 1)),
                    renderer: Renderer::MeteringMode,
                },
                0x9208 => TagDescriptor {
                    tag: IfdTag::Exif(ExifTag::LightSource),
                    format: IfdFormat::U16,
                    count_bounds: Some((1, 1)),
                    renderer: Renderer::LightSource,
                },
                0x9209 => TagDescriptor {
                    tag: IfdTag::Exif(ExifTag::Flash),
                    format: IfdFormat::U16,
                    count_bounds: Some((1, 2)),
                    renderer: Renderer::Flash,
                },
                0x920a => TagDescriptor {
                    tag: IfdTag::Exif(ExifTag::FocalLength),
                    format: IfdFormat::URational,
                    count_bounds: Some((1, 1)),
                    renderer: Renderer::FocalLength,
                },
                0x9214 => TagDescriptor {
                    tag: IfdTag::Exif(ExifTag::SubjectArea),
                    format: IfdFormat::U16,
                    count_bounds: Some((2, 4)),
                    renderer: Renderer::SubjectArea,
                },
                0x927c => TagDescriptor {
                    tag: IfdTag::Exif(ExifTag::MakerNote),
                    format: IfdFormat::Undefined,
                    count_bounds: None,
                    renderer: Renderer::UndefinedAsBlob,
                },
                0x9286 => TagDescriptor {
                    tag: IfdTag::Exif(ExifTag::UserComment),
                    format: IfdFormat::Undefined,
                    count_bounds: None,
                    renderer: Renderer::UndefinedAsEncodedString,
                },
                0xa000 => TagDescriptor {
                    tag: IfdTag::Exif(ExifTag::FlashpixVersion),
                    format: IfdFormat::Undefined,
                    count_bounds: None,
                    renderer: Renderer::UndefinedAsAscii,
                },
                0xa001 => TagDescriptor {
                    tag: IfdTag::Exif(ExifTag::ColorSpace),
                    format: IfdFormat::U16,
                    count_bounds: Some((1, 1)),
                    renderer: Renderer::ColorSpace,
                },
                0xa004 => TagDescriptor {
                    tag: IfdTag::Exif(ExifTag::RelatedSoundFile),
                    format: IfdFormat::Ascii,
                    count_bounds: None,
                    renderer: Renderer::Strpass,
                },
                0xa20b => TagDescriptor {
                    tag: IfdTag::Exif(ExifTag::FlashEnergy),
                    format: IfdFormat::URational,
                    count_bounds: Some((1, 1)),
                    renderer: Renderer::FlashEnergy,
                },
                0xa20e => TagDescriptor {
                    tag: IfdTag::Exif(ExifTag::FocalPlaneXResolution),
                    format: IfdFormat::URational,
                    count_bounds: Some((1, 1)),
                    renderer: Renderer::RationalValue,
                },
                0xa20f => TagDescriptor {
                    tag: IfdTag::Exif(ExifTag::FocalPlaneYResolution),
                    format: IfdFormat::URational,
                    count_bounds: Some((1, 1)),
                    renderer: Renderer::RationalValue,
                },
                0xa210 => TagDescriptor {
                    tag: IfdTag::Exif(ExifTag::FocalPlaneResolutionUnit),
                    format: IfdFormat::U16,
                    count_bounds: Some((1, 1)),
                    renderer: Renderer::ResolutionUnit,
                },
                0xa214 => TagDescriptor {
                    tag: IfdTag::Exif(ExifTag::SubjectLocation),
                    format: IfdFormat::U16,
                    count_bounds: Some((2, 2)),
                    renderer: Renderer::SubjectLocation,
                },
                0xa215 => TagDescriptor {
                    tag: IfdTag::Exif(ExifTag::ExposureIndex),
                    format: IfdFormat::URational,
                    count_bounds: Some((1, 1)),
                    renderer: Renderer::RationalValue,
                },
                0xa217 => TagDescriptor {
                    tag: IfdTag::Exif(ExifTag::SensingMethod),
                    format: IfdFormat::U16,
                    count_bounds: Some((1, 1)),
                    renderer: Renderer::SensingMethod,
                },
                0xa300 => TagDescriptor {
                    tag: IfdTag::Exif(ExifTag::FileSource),
                    format: IfdFormat::Undefined,
                    count_bounds: Some((1, 1)),
                    renderer: Renderer::FileSource,
                },
                0xa301 => TagDescriptor {
                    tag: IfdTag::Exif(ExifTag::SceneType),
                    format: IfdFormat::Undefined,
                    count_bounds: Some((1, 1)),
                    renderer: Renderer::SceneType,
                },
                0xa302 => TagDescriptor {
                    tag: IfdTag::Exif(ExifTag::CFAPattern),
                    format: IfdFormat::Undefined,
                    count_bounds: None,
                    renderer: Renderer::UndefinedAsU8,
                },
                0xa401 => TagDescriptor {
                    tag: IfdTag::Exif(ExifTag::CustomRendered),
                    format: IfdFormat::U16,
                    count_bounds: Some((1, 1)),
                    renderer: Renderer::CustomRendered,
                },
                0xa402 => TagDescriptor {
                    tag: IfdTag::Exif(ExifTag::ExposureMode),
                    format: IfdFormat::U16,
                    count_bounds: Some((1, 1)),
                    renderer: Renderer::ExposureMode,
                },
                0xa403 => TagDescriptor {
                    tag: IfdTag::Exif(ExifTag::WhiteBalance),
                    format: IfdFormat::U16,
                    count_bounds: Some((1, 1)),
                    renderer: Renderer::WhiteBalanceMode,
                },
                0xa404 => TagDescriptor {
                    tag: IfdTag::Exif(ExifTag::DigitalZoomRatio),
                    format: IfdFormat::URational,
                    count_bounds: Some((1, 1)),
                    renderer: Renderer::RationalValue,
                },
                0xa405 => TagDescriptor {
                    tag: IfdTag::Exif(ExifTag::FocalLengthIn35mmFilm),
                    format: IfdFormat::U16,
                    count_bounds: Some((1, 1)),
                    renderer: Renderer::FocalLength35,
                },
                0xa406 => TagDescriptor {
                    tag: IfdTag::Exif(ExifTag::SceneCaptureType),
                    format: IfdFormat::U16,
                    count_bounds: Some((1, 1)),
                    renderer: Renderer::SceneCaptureType,
                },
                0xa407 => TagDescriptor {
                    tag: IfdTag::Exif(ExifTag::GainControl),
                    format: IfdFormat::U16,
                    count_bounds: Some((1, 1)),
                    renderer: Renderer::GainControl,
                },
                0xa408 => TagDescriptor {
                    tag: IfdTag::Exif(ExifTag::Contrast),
                    format: IfdFormat::U16,
                    count_bounds: Some((1, 1)),
                    renderer: Renderer::Contrast,
                },
                0xa409 => TagDescriptor {
                    tag: IfdTag::Exif(ExifTag::Saturation),
                    format: IfdFormat::U16,
                    count_bounds: Some((1, 1)),
                    renderer: Renderer::Saturation,
                },
                0xa40a => TagDescriptor {
                    tag: IfdTag::Exif(ExifTag::Sharpness),
                    format: IfdFormat::U16,
                    count_bounds: Some((1, 1)),
                    renderer: Renderer::Sharpness,
                },
                0xa432 => TagDescriptor {
                    tag: IfdTag::Exif(ExifTag::LensSpecification),
                    format: IfdFormat::URational,
                    count_bounds: Some((4, 4)),
                    renderer: Renderer::LensSpec,
                },
                0xa433 => TagDescriptor {
                    tag: IfdTag::Exif(ExifTag::LensMake),
                    format: IfdFormat::Ascii,
                    count_bounds: None,
                    renderer: Renderer::Strpass,
                },
                0xa434 => TagDescriptor {
                    tag: IfdTag::Exif(ExifTag::LensModel),
                    format: IfdFormat::Ascii,
                    count_bounds: None,
                    renderer: Renderer::Strpass,
                },
                0xa40b => TagDescriptor {
                    tag: IfdTag::Exif(ExifTag::DeviceSettingDescription),
                    format: IfdFormat::Undefined,
                    count_bounds: None,
                    renderer: Renderer::UndefinedAsBlob,
                },
                0xa40c => TagDescriptor {
                    tag: IfdTag::Exif(ExifTag::SubjectDistanceRange),
                    format: IfdFormat::U16,
                    count_bounds: Some((1, 1)),
                    renderer: Renderer::SubjectDistanceRange,
                },
                0xa420 => TagDescriptor {
                    tag: IfdTag::Exif(ExifTag::ImageUniqueID),
                    format: IfdFormat::Ascii,
                    count_bounds: None,
                    renderer: Renderer::Strpass,
                },
            _ => TagDescriptor {
                tag: IfdTag::Unknown(f),
                format: IfdFormat::Unknown,
                count_bounds: None,
                renderer: Renderer::Strpass,
            },
        }
    }
}

} // verus!
