use rexif::exifreadable::dms;
use rexif::exifreadable::exposure_time;
use rexif::exifreadable::flash;
use rexif::exifreadable::gps_alt_ref;
use rexif::exifreadable::gpstimestamp;
use rexif::exifreadable::lens_spec;
use rexif::exifreadable::orientation;
use rexif::exifreadable::rational_value;
use rexif::exifreadable::strpass;
use rexif::exifreadable::resolution_unit;
use rexif::exifreadable::undefined_as_encoded_string;
use rexif::ExifTag;
use rexif::IRational;
use rexif::TagValue;
use rexif::URational;

fn ur(n: u32, d: u32) -> URational {
    URational { numerator: n, denominator: d }
}

#[test]
fn rational_value_should_return_a_single_element_vector_as_that_element_stringified() {
    let tag = TagValue::URational(vec![URational { numerator: 42, denominator: 7 }]);
    let string = rational_value(&tag);

    assert_eq!("6", string);

    let tag = TagValue::IRational(vec![IRational { numerator: -42, denominator: 7 }]);
    let string = rational_value(&tag);

    assert_eq!("-6", string);
}

#[test]
fn rational_value_should_return_comma_separated_list_of_values() {
    let tag = TagValue::URational(vec![
        URational { numerator: 1, denominator: 3 },
        URational { numerator: 42, denominator: 7 },
    ]);
    let string = rational_value(&tag);

    assert_eq!("0.3333333333333333, 6", string);
}

#[test]
fn undefined_as_encoded_string_should_return_a_jis_string_as_a_csv_list_of_byte_values() {
    let tag = TagValue::Undefined(vec![0x4a, 0x49, 0x53, 0, 0, 0, 0, 0, 56, 32, 91, 33], true);
    let string = undefined_as_encoded_string(&tag);

    assert_eq!("JIS string 56, 32, 91, 33", string);
}

#[test]
fn undefined_as_encoded_string_decodes_a_unicode_payload_with_the_declared_endianness() {
    let tag = TagValue::Undefined(
        vec![0x55, 0x4e, 0x49, 0x43, 0x4f, 0x44, 0x45, 0x00, 0x48, 0x00, 0x49, 0x00],
        true,
    );
    let string = undefined_as_encoded_string(&tag);

    assert_eq!("HI", string);
}

#[test]
fn undefined_as_encoded_string_reports_a_truncated_preamble() {
    let tag = TagValue::Undefined(vec![1, 2, 3], false);

    assert_eq!("String w/ truncated preamble 1, 2, 3", undefined_as_encoded_string(&tag));
}

#[test]
fn orientation_renders_each_rotation_code() {
    assert_eq!("Straight", orientation(&TagValue::U16(vec![1])));
    assert_eq!("Rotated to left", orientation(&TagValue::U16(vec![6])));
    assert_eq!("Rotated to right", orientation(&TagValue::U16(vec![8])));
    assert_eq!("Unknown (7)", orientation(&TagValue::U16(vec![7])));
}

#[test]
fn resolution_unit_renders_inches_and_centimeters() {
    assert_eq!("in", resolution_unit(&TagValue::U16(vec![2])));
    assert_eq!("cm", resolution_unit(&TagValue::U16(vec![3])));
}

#[test]
fn exposure_time_keeps_a_traditional_fraction() {
    let s = exposure_time(&TagValue::URational(vec![ur(1, 125)]));

    assert_eq!("1/125 s", s);
}

#[test]
fn exposure_time_shows_the_reciprocal_of_a_value_below_one() {
    let s = exposure_time(&TagValue::URational(vec![ur(2, 4)]));

    assert_eq!("1/2.0 s", s);
}

#[test]
fn exposure_time_shows_a_long_exposure_with_one_decimal() {
    let s = exposure_time(&TagValue::URational(vec![ur(3, 1)]));

    assert_eq!("3.0 s", s);
}

#[test]
fn exposure_time_shows_the_reciprocal_of_a_short_exposure_without_decimals() {
    let s = exposure_time(&TagValue::URational(vec![ur(2, 125)]));

    assert_eq!("1/62 s", s);
}

#[test]
fn flash_decodes_the_fired_bits_with_auto_mode() {
    let s = flash(&TagValue::U16(vec![0x19]));

    assert_eq!("Fired. Auto mode. No redeye reduction. ", s);
}

#[test]
fn flash_without_a_flash_short_circuits_every_other_bit() {
    let s = flash(&TagValue::U16(vec![0x20]));

    assert_eq!("Does not have a flash.", s);
    assert_eq!("Does not have a flash.", flash(&TagValue::U16(vec![0x39])));
}

#[test]
fn dms_renders_integer_degrees_and_minutes_with_decimal_seconds() {
    let s = dms(&TagValue::URational(vec![ur(40, 1), ur(26, 1), ur(46, 2)]));

    assert_eq!("40\u{b0}26'23.00\"", s);
}

#[test]
fn dms_collapses_fractional_minutes() {
    let s = dms(&TagValue::URational(vec![ur(40, 1), ur(53, 2), ur(0, 1)]));

    assert_eq!("40\u{b0}26.5000'", s);
}

#[test]
fn dms_collapses_fractional_degrees() {
    let s = dms(&TagValue::URational(vec![ur(81, 2), ur(0, 1), ur(0, 1)]));

    assert_eq!("40.5000000\u{b0}", s);
}

#[test]
fn gpstimestamp_zero_pads_every_component() {
    let s = gpstimestamp(&TagValue::URational(vec![ur(7, 1), ur(8, 1), ur(12, 2)]));

    assert_eq!("07:08:06.0 UTC", s);
}

#[test]
fn gps_alt_ref_distinguishes_above_and_below_sea_level() {
    assert_eq!("Above sea level", gps_alt_ref(&TagValue::U8(vec![0])));
    assert_eq!("Below sea level", gps_alt_ref(&TagValue::U8(vec![1])));
}

#[test]
fn lens_spec_renders_a_fixed_lens_and_a_zoom_range() {
    let fixed = lens_spec(&TagValue::URational(vec![ur(50, 1), ur(50, 1), ur(9, 5), ur(9, 5)]));

    assert_eq!("50 mm f/1.8", fixed);

    let zoom = lens_spec(&TagValue::URational(vec![ur(18, 1), ur(55, 1), ur(7, 2), ur(28, 5)]));

    assert_eq!("18-55 mm f/3.5-5.6", zoom);

    let unknown = lens_spec(&TagValue::URational(vec![ur(50, 1), ur(50, 1), ur(0, 0), ur(0, 0)]));

    assert_eq!("50 mm f/unknown", unknown);
}

#[test]
fn rational_display_shows_numerator_and_denominator() {
    assert_eq!("1/125", ur(1, 125).display());
    assert_eq!("-3/4", IRational { numerator: -3, denominator: 4 }.display());
}

#[test]
fn meters_renders_one_decimal() {
    assert_eq!("2.5 m", rexif::exifreadable::meters(&TagValue::URational(vec![ur(5, 2)])));
}

#[test]
fn f_number_renders_one_decimal_after_the_prefix() {
    assert_eq!("f/2.8", rexif::exifreadable::f_number(&TagValue::URational(vec![ur(28, 10)])));
}

#[test]
fn apex_brightness_reserves_the_sentinel_numerator_for_unknown() {
    let unknown = TagValue::IRational(vec![IRational { numerator: -1, denominator: 1 }]);
    assert_eq!("Unknown", rexif::exifreadable::apex_brightness(&unknown));

    let known = TagValue::IRational(vec![IRational { numerator: 5, denominator: 2 }]);
    assert_eq!("2.5 APEX", rexif::exifreadable::apex_brightness(&known));
}

#[test]
fn iso_speeds_renders_one_or_two_components() {
    assert_eq!("ISO 100", rexif::exifreadable::iso_speeds(&TagValue::U16(vec![100])));
    assert_eq!("ISO 100 latitude 2", rexif::exifreadable::iso_speeds(&TagValue::U16(vec![100, 2])));
}

#[test]
fn subject_area_renders_point_circle_and_rectangle() {
    assert_eq!("at pixel 10,20", rexif::exifreadable::subject_area(&TagValue::U16(vec![10, 20])));
    assert_eq!(
        "at center 1,2 radius 3",
        rexif::exifreadable::subject_area(&TagValue::U16(vec![1, 2, 3]))
    );
    assert_eq!(
        "at rectangle 1,2 width 3 height 4",
        rexif::exifreadable::subject_area(&TagValue::U16(vec![1, 2, 3, 4]))
    );
}

#[test]
fn file_source_recognizes_a_digital_still_camera() {
    assert_eq!("DSC", rexif::exifreadable::file_source(&TagValue::Undefined(vec![3], true)));
    assert_eq!("Unknown", rexif::exifreadable::file_source(&TagValue::Undefined(vec![9], true)));
}

#[test]
fn color_space_recognizes_srgb_and_uncalibrated() {
    assert_eq!("sRGB", rexif::exifreadable::color_space(&TagValue::U16(vec![1])));
    assert_eq!("Uncalibrated", rexif::exifreadable::color_space(&TagValue::U16(vec![65535])));
}

#[test]
fn gps_reference_renderers_expand_their_letters() {
    let k = TagValue::Ascii("K".to_string());
    assert_eq!("km", rexif::exifreadable::gpsdestdistanceref(&k));
    assert_eq!("km/h", rexif::exifreadable::gpsspeedref(&k));
    let a = TagValue::Ascii("A".to_string());
    assert_eq!("Measurement in progress", rexif::exifreadable::gpsstatus(&a));
    let two = TagValue::Ascii("2".to_string());
    assert_eq!("2-dimension", rexif::exifreadable::gpsmeasuremode(&two));
    let odd = TagValue::Ascii("Q".to_string());
    assert_eq!("Unknown (Q)", rexif::exifreadable::gpsbearingref(&odd));
}

#[test]
fn exposure_time_over_a_zero_denominator_follows_the_ieee_quotient() {
    assert_eq!("NaN s", exposure_time(&TagValue::URational(vec![ur(0, 0)])));
    assert_eq!("inf s", exposure_time(&TagValue::URational(vec![ur(5, 0)])));
}

#[test]
fn focal_length_shows_the_exact_value() {
    assert_eq!("50 mm", rexif::exifreadable::focal_length(&TagValue::URational(vec![ur(50, 1)])));
    assert_eq!("4 mm", rexif::exifreadable::focal_length(&TagValue::URational(vec![ur(16, 4)])));
}

#[test]
fn gpsbearing_renders_two_decimals_and_a_degree_sign() {
    assert_eq!(
        "360.50\u{b0}",
        rexif::exifreadable::gpsbearing(&TagValue::URational(vec![ur(721, 2)]))
    );
}

#[test]
fn undefined_blobs_render_as_a_length_note_or_verbatim_text() {
    let blob = TagValue::Undefined(vec![0; 10], true);
    assert_eq!("Blob of 10 bytes", rexif::exifreadable::undefined_as_blob(&blob));

    let version = TagValue::Undefined(b"0210".to_vec(), true);
    assert_eq!("0210", rexif::exifreadable::undefined_as_ascii(&version));
    assert_eq!("48, 50, 49, 48", rexif::exifreadable::undefined_as_u8(&version));
}

#[test]
fn strpass_shows_the_plain_value_form() {
    assert_eq!("<unknown blob>", strpass(&TagValue::Unknown(vec![1, 2], true)));
    assert_eq!("Invalid", strpass(&TagValue::Invalid(vec![1], true, 3, 9)));
    assert_eq!("1, 2, 3", strpass(&TagValue::U16(vec![1, 2, 3])));
    assert_eq!("hello", strpass(&TagValue::Ascii("hello".to_string())));
}

#[test]
fn tags_expose_their_names_and_units() {
    assert_eq!("Orientation", ExifTag::Orientation.name());
    assert_eq!("This image has a GPS SubIFD", ExifTag::GPSInfo.name());
    let entry = rexif::ExifEntry {
        namespace: rexif::Namespace::Standard,
        tag: rexif::IfdTag::Exif(ExifTag::ExposureTime),
        value: TagValue::Ascii(String::new()),
        value_more_readable: String::new(),
    };
    assert_eq!("s", entry.unit());
    let gps = rexif::ExifEntry {
        namespace: rexif::Namespace::Standard,
        tag: rexif::IfdTag::Exif(ExifTag::GPSLatitude),
        value: TagValue::Ascii(String::new()),
        value_more_readable: String::new(),
    };
    assert_eq!("D/M/S", gps.unit());
}
