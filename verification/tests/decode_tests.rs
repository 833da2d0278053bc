use rexif::exif::tag_to_exif;
use rexif::exif::Renderer;
use rexif::ifdformat::tag_value_new;
use rexif::lowlevel::read_u16;
use rexif::lowlevel::read_u32;
use rexif::ExifTag;
use rexif::IfdEntry;
use rexif::IfdFormat;
use rexif::IfdTag;
use rexif::Namespace;
use rexif::TagValue;

fn entry(format: IfdFormat, count: u32, data: Vec<u8>, le: bool) -> IfdEntry {
    IfdEntry { namespace: Namespace::Standard, tag: 0, format, count, data, le }
}

#[test]
fn reading_a_little_endian_word_equals_reading_the_reversed_word_big_endian() {
    let forward = [1u8, 2, 3, 4];
    let reversed = [4u8, 3, 2, 1];

    assert_eq!(read_u32(true, &forward), read_u32(false, &reversed));
    assert_eq!(read_u32(true, &forward), 0x04030201);
    assert_eq!(read_u16(true, &[0xab, 0xcd]), read_u16(false, &[0xcd, 0xab]));
}

#[test]
fn short_buffers_decode_to_invalid_for_every_fixed_width_format() {
    let cases = vec![
        (IfdFormat::U16, 3u32, vec![1u8, 2, 3, 4]),
        (IfdFormat::U32, 2, vec![1, 2, 3, 4]),
        (IfdFormat::URational, 1, vec![1, 2, 3, 4]),
        (IfdFormat::IRational, 1, vec![]),
        (IfdFormat::I16, 9, vec![0]),
        (IfdFormat::U8, 5, vec![1, 2, 3, 4]),
    ];
    for (format, count, data) in cases {
        let e = entry(format, count, data.clone(), true);
        match tag_value_new(&e) {
            TagValue::Invalid(d, le, f, c) => {
                assert_eq!(d, data);
                assert!(le);
                assert_eq!(f, e.format.code());
                assert_eq!(c, count);
            },
            _ => panic!("expected an invalid value"),
        }
    }
}

#[test]
fn ascii_decoding_ignores_any_number_of_trailing_nuls() {
    for data in [&b"foo"[..], &b"foo\0"[..], &b"foo\0\0\0"[..]] {
        let e = entry(IfdFormat::Ascii, data.len() as u32, data.to_vec(), true);
        match tag_value_new(&e) {
            TagValue::Ascii(s) => assert_eq!("foo", s),
            _ => panic!("expected text"),
        }
    }
}

#[test]
fn ascii_decoding_replaces_ill_formed_bytes() {
    let e = entry(IfdFormat::Ascii, 3, vec![0x66, 0xff, 0x6f], true);
    match tag_value_new(&e) {
        TagValue::Ascii(s) => assert_eq!("f\u{fffd}o", s),
        _ => panic!("expected text"),
    }
}

#[test]
fn u16_arrays_decode_each_element_with_the_declared_endianness() {
    let e = entry(IfdFormat::U16, 2, vec![0x34, 0x12, 0x78, 0x56], true);
    match tag_value_new(&e) {
        TagValue::U16(a) => assert_eq!(vec![0x1234, 0x5678], a),
        _ => panic!("expected a u16 array"),
    }
}

#[test]
fn lookup_returns_a_descriptor_for_every_code_in_both_namespaces() {
    let mut code: u32 = 0;
    while code <= 0xffff {
        let d = tag_to_exif(false, code as u16);
        assert_eq!(d.tag.value(), code as u16);
        let g = tag_to_exif(true, code as u16);
        assert_eq!(g.tag.value(), code as u16);
        code += 1;
    }
}

#[test]
fn lookup_resolves_codes_in_the_directory_namespace_the_walker_names() {
    assert_eq!(tag_to_exif(false, 0x0112).tag, IfdTag::Exif(ExifTag::Orientation));
    assert_eq!(tag_to_exif(true, 0x0002).tag, IfdTag::Exif(ExifTag::GPSLatitude));
    assert_eq!(tag_to_exif(false, 0x0002).tag, IfdTag::Unknown(0x0002));
    assert_eq!(tag_to_exif(false, 0xbeef).tag, IfdTag::Unknown(0xbeef));
    assert!(matches!(tag_to_exif(false, 0x829a).renderer, Renderer::ExposureTime));
    assert_eq!(tag_to_exif(false, 0x829a).format, IfdFormat::URational);
    assert_eq!(tag_to_exif(false, 0x829a).count_bounds, Some((1, 1)));
}

#[test]
fn formats_map_to_and_from_their_on_disk_codes() {
    assert_eq!(IfdFormat::new(3), IfdFormat::U16);
    assert_eq!(IfdFormat::new(5), IfdFormat::URational);
    assert_eq!(IfdFormat::new(99), IfdFormat::Unknown);
    assert_eq!(IfdFormat::URational.size(), 8);
    assert_eq!(IfdFormat::U16.code(), 3);
}

#[test]
fn entry_length_and_offset_come_from_format_count_and_inline_bytes() {
    let e = entry(IfdFormat::U32, 3, vec![0x10, 0, 0, 0], true);

    assert_eq!(e.length(), 12);
    assert!(!e.in_ifd());
    assert_eq!(e.data_as_offset(), 0x10);
}

#[test]
fn hex_lists_bytes_as_padded_pairs() {
    assert_eq!("0f, a0", rexif::nikon::hex(&[0x0f, 0xa0]));
    assert_eq!("", rexif::nikon::hex(&[]));
}
