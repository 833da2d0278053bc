use rexif::image::detect_type;
use rexif::image::find_embedded_tiff_in_jpeg;
use rexif::parse_buffer;
use rexif::tiff::parse_tiff;
use rexif::ExifError;
use rexif::ExifTag;
use rexif::IfdTag;
use rexif::Namespace;
use rexif::TagValue;

/// A minimal little-endian TIFF whose IFD0 holds one Orientation entry
/// with value 6 and no sub-directories.
fn minimal_tiff() -> Vec<u8> {
    let mut b: Vec<u8> = vec![0x49, 0x49, 42, 0, 8, 0, 0, 0];
    b.extend_from_slice(&[1, 0]);
    b.extend_from_slice(&[0x12, 0x01, 3, 0, 1, 0, 0, 0, 6, 0, 0, 0]);
    b
}

#[test]
fn a_minimal_tiff_yields_one_readable_orientation_entry() {
    let data = parse_buffer(&minimal_tiff()).unwrap();

    assert_eq!("image/tiff", data.mime);
    assert_eq!(1, data.entries.len());
    let entry = &data.entries[0];
    assert_eq!(IfdTag::Exif(ExifTag::Orientation), entry.tag);
    assert_eq!(Namespace::Standard, entry.namespace);
    assert_eq!("Rotated to left", entry.value_more_readable);
    assert_eq!("none", entry.unit());
}

#[test]
fn a_jpeg_without_an_exif_segment_fails_with_the_jpeg_error_kind() {
    let mut b: Vec<u8> = vec![0xff, 0xd8, 0xff, 0xe0, 0, 16];
    b.extend_from_slice(b"JFIF\0");
    b.extend_from_slice(&[0, 0, 0, 0, 0, 0, 0, 0, 0]);
    b.extend_from_slice(&[0xff, 0xda, 0, 2]);

    assert_eq!("image/jpeg", detect_type(&b));
    match parse_buffer(&b) {
        Err(ExifError::JpegWithoutExif(msg)) => {
            assert_eq!("Last mark found and no EXIF", msg);
        },
        _ => panic!("expected the missing-EXIF error"),
    }
}

#[test]
fn a_jpeg_with_an_exif_segment_parses_the_embedded_tiff() {
    let tiff = minimal_tiff();
    let mut b: Vec<u8> = vec![0xff, 0xd8, 0xff, 0xe1, 0, (8 + tiff.len()) as u8];
    b.extend_from_slice(b"Exif\0\0");
    b.extend_from_slice(&tiff);

    assert_eq!("image/jpeg", detect_type(&b));
    let (offset, len) = find_embedded_tiff_in_jpeg(&b).unwrap();
    assert_eq!(12, offset);
    assert_eq!(tiff.len(), len);

    let data = parse_buffer(&b).unwrap();
    assert_eq!("image/jpeg", data.mime);
    assert_eq!(1, data.entries.len());
    assert_eq!("Rotated to left", data.entries[0].value_more_readable);
}

#[test]
fn an_unrecognized_container_fails_with_file_type_unknown() {
    let b = vec![9u8; 32];

    assert!(matches!(parse_buffer(&b), Err(ExifError::FileTypeUnknown)));
}

#[test]
fn a_tiff_shorter_than_its_preamble_is_truncated() {
    assert!(matches!(parse_tiff(&[0x49, 0x49, 42]), Err(ExifError::TiffTruncated)));
}

#[test]
fn a_tiff_with_an_alien_preamble_names_the_bytes_seen() {
    match parse_tiff(&[1, 2, 3, 4, 5, 6, 7, 8]) {
        Err(ExifError::TiffBadPreamble(msg)) => {
            assert_eq!("Preamble is 01 02 03 04", msg);
        },
        _ => panic!("expected a bad-preamble error"),
    }
}

#[test]
fn a_directory_offset_beyond_the_buffer_is_a_truncation_error() {
    let b: Vec<u8> = vec![0x49, 0x49, 42, 0, 200, 0, 0, 0, 0, 0, 0, 0];

    assert!(matches!(parse_tiff(&b), Err(ExifError::ExifIfdTruncated(_))));
}

#[test]
fn resolution_entries_gain_their_unit_from_the_sibling_tag() {
    let mut b: Vec<u8> = vec![0x49, 0x49, 42, 0, 8, 0, 0, 0];
    b.extend_from_slice(&[2, 0]);
    b.extend_from_slice(&[0x1a, 0x01, 5, 0, 1, 0, 0, 0, 34, 0, 0, 0]);
    b.extend_from_slice(&[0x28, 0x01, 3, 0, 1, 0, 0, 0, 2, 0, 0, 0]);
    b.extend_from_slice(&[72, 0, 0, 0, 1, 0, 0, 0]);

    let data = parse_buffer(&b).unwrap();
    assert_eq!(2, data.entries.len());
    let x = &data.entries[0];
    assert_eq!(IfdTag::Exif(ExifTag::XResolution), x.tag);
    assert_eq!("72 pixels per in", x.value_more_readable);
    assert!(x.value_more_readable.ends_with(" pixels per in"));
}

#[test]
fn a_malformed_entry_degrades_without_failing_the_image() {
    let mut b: Vec<u8> = vec![0x49, 0x49, 42, 0, 8, 0, 0, 0];
    b.extend_from_slice(&[2, 0]);
    b.extend_from_slice(&[0x12, 0x01, 3, 0, 1, 0, 0, 0, 6, 0, 0, 0]);
    // A ResolutionUnit entry declaring two elements, outside its
    // one-element bounds: kept, but only with its plain value.
    b.extend_from_slice(&[0x28, 0x01, 3, 0, 2, 0, 0, 0, 2, 0, 7, 0]);

    let data = parse_buffer(&b).unwrap();
    assert_eq!(2, data.entries.len());
    assert_eq!("Rotated to left", data.entries[0].value_more_readable);
    let degraded = &data.entries[1];
    assert_eq!(IfdTag::Exif(ExifTag::ResolutionUnit), degraded.tag);
    assert_eq!("2, 7", degraded.value_more_readable);
}

#[test]
fn an_entry_whose_payload_lies_beyond_the_buffer_is_skipped() {
    let mut b: Vec<u8> = vec![0x49, 0x49, 42, 0, 8, 0, 0, 0];
    b.extend_from_slice(&[2, 0]);
    // An XResolution entry whose eight payload bytes would start at
    // offset 200, far past the end: dropped, not fatal.
    b.extend_from_slice(&[0x1a, 0x01, 5, 0, 1, 0, 0, 0, 200, 0, 0, 0]);
    b.extend_from_slice(&[0x12, 0x01, 3, 0, 1, 0, 0, 0, 6, 0, 0, 0]);

    let data = parse_buffer(&b).unwrap();
    assert_eq!(1, data.entries.len());
    assert_eq!("Rotated to left", data.entries[0].value_more_readable);
}

#[test]
fn gps_entries_resolve_in_the_gps_namespace_and_gain_their_reference() {
    let mut b: Vec<u8> = vec![0x49, 0x49, 42, 0, 8, 0, 0, 0];
    b.extend_from_slice(&[1, 0]);
    b.extend_from_slice(&[0x25, 0x88, 4, 0, 1, 0, 0, 0, 22, 0, 0, 0]);
    b.extend_from_slice(&[2, 0]);
    b.extend_from_slice(&[0x02, 0x00, 5, 0, 3, 0, 0, 0, 48, 0, 0, 0]);
    b.extend_from_slice(&[0x01, 0x00, 2, 0, 2, 0, 0, 0, 0x4e, 0, 0, 0]);
    b.extend_from_slice(&[40, 0, 0, 0, 1, 0, 0, 0]);
    b.extend_from_slice(&[26, 0, 0, 0, 1, 0, 0, 0]);
    b.extend_from_slice(&[46, 0, 0, 0, 2, 0, 0, 0]);

    let data = parse_buffer(&b).unwrap();
    assert_eq!(3, data.entries.len());
    assert_eq!(IfdTag::Exif(ExifTag::GPSInfo), data.entries[0].tag);
    let lat = &data.entries[1];
    assert_eq!(IfdTag::Exif(ExifTag::GPSLatitude), lat.tag);
    assert_eq!("40\u{b0}26'23.00\" N", lat.value_more_readable);
    assert_eq!(IfdTag::Exif(ExifTag::GPSLatitudeRef), data.entries[2].tag);
    assert_eq!("N", data.entries[2].value_more_readable);
}

#[test]
fn a_nikon_makernote_adds_vendor_entries_after_everything_else() {
    let mut inner: Vec<u8> = vec![0x49, 0x49, 42, 0, 8, 0, 0, 0];
    inner.extend_from_slice(&[1, 0]);
    inner.extend_from_slice(&[0x02, 0x00, 2, 0, 2, 0, 0, 0, 0x76, 0x31, 0, 0]);
    inner.extend_from_slice(&[0, 0, 0, 0]);
    let mut blob: Vec<u8> = Vec::new();
    blob.extend_from_slice(b"Nikon\0");
    blob.extend_from_slice(&[0x02, 0x11, 0, 0]);
    blob.extend_from_slice(&inner);

    let mut b: Vec<u8> = vec![0x49, 0x49, 42, 0, 8, 0, 0, 0];
    b.extend_from_slice(&[1, 0]);
    b.extend_from_slice(&[0x7c, 0x92, 7, 0, blob.len() as u8, 0, 0, 0, 22, 0, 0, 0]);
    b.extend_from_slice(&blob);

    let data = parse_buffer(&b).unwrap();
    assert_eq!(2, data.entries.len());
    assert_eq!(IfdTag::Exif(ExifTag::MakerNote), data.entries[0].tag);
    let vendor = &data.entries[1];
    assert_eq!(Namespace::NikonFormat2, vendor.namespace);
    assert_eq!(IfdTag::Unknown(2), vendor.tag);
    assert_eq!("v1", vendor.value_more_readable);
    match &vendor.value {
        TagValue::Ascii(s) => assert_eq!("v1", s),
        _ => panic!("expected text"),
    }
}
