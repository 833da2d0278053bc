//! Extraction of EXIF metadata from JPEG and TIFF images.
//!
//! The library locates the TIFF directory structure of an image (directly,
//! or embedded in a JPEG APP1 segment), walks its directory entries, decodes
//! each entry's raw bytes according to a tag-specific type and count
//! contract, and renders a human-readable interpretation of each value.
//!
//! Start from [`parse_buffer`] and the [`types::ExifData`] structure it
//! returns.

pub mod exif;
pub mod exifpost;
pub mod exifreadable;
pub mod ifdformat;
pub mod image;
pub mod nikon;
pub mod numfmt;
pub mod lowlevel;
pub mod rational;
pub mod textenc;
pub mod tiff;
pub mod to_csv;
pub mod types_impl;
pub mod types;

pub use crate::rational::IRational;
pub use crate::rational::URational;
pub use crate::types::ExifData;
pub use crate::types::ExifEntry;
pub use crate::types::ExifEntryResult;
pub use crate::types::ExifError;
pub use crate::types::ExifResult;
pub use crate::types::ExifTag;
pub use crate::types::IfdEntry;
pub use crate::types::IfdFormat;
pub use crate::types::IfdTag;
pub use crate::types::Namespace;
pub use crate::types::TagValue;

use crate::image::detect_type;
use crate::image::find_embedded_tiff_in_jpeg;
use crate::image::spec_detect_type;
use crate::image::spec_find_embedded_tiff;
use crate::image::spec_scan_exif;
use crate::tiff::parse_tiff;
use crate::tiff::spec_parse_tiff;
use crate::types::ExifDataV;
use crate::types::ExifErrorV;
use vstd::prelude::*;
use vstd::slice::slice_subrange;
use vstd::string::*;

verus! {

/// A successful marker scan names a byte range that lies inside the
/// buffer.
proof fn lemma_scan_exif_ok_bounds(s: Seq<u8>, offset: nat)
    requires
        spec_scan_exif(s, offset) is Ok,
    ensures
        ({
            let (o, l) = spec_scan_exif(s, offset)->Ok_0;
            o + l <= s.len() && o >= offset
        }),
    decreases s.len() - offset,
{
    if offset >= s.len() {
    } else if s.len() < offset + 4 {
    } else {
        let marker = crate::image::spec_marker(s, offset);
        if marker < 0xff00 {
        } else {
            let size = crate::image::spec_marker(s, offset + 2);
            if size < 2 {
            } else if s.len() < offset + 2 + size {
            } else if marker == 0xffe1 {
            } else if marker == 0xffda {
            } else {
                lemma_scan_exif_ok_bounds(s, offset + 2 + size);
            }
        }
    }
}

/// The parse of a whole image buffer: the magic bytes pick the container
/// (an unrecognized container is a fatal error); a JPEG is parsed at the
/// embedded TIFF range its EXIF segment names, a TIFF directly; the
/// result carries the detected MIME type and all entries found.
pub open spec fn spec_parse_buffer(s: Seq<u8>) -> Result<ExifDataV, ExifErrorV> {
    if s.len() < 11 || (!crate::image::spec_is_jpeg(s) && !crate::image::spec_is_tiff_le(s)
        && !crate::image::spec_is_tiff_be(s)) {
        Err(ExifErrorV::FileTypeUnknown)
    } else if crate::image::spec_is_jpeg(s) {
        match spec_find_embedded_tiff(s) {
            Err(m) => Err(ExifErrorV::JpegWithoutExif(m)),
            Ok((o, l)) => match spec_parse_tiff(s.subrange(o as int, (o + l) as int)) {
                Err(e) => Err(e),
                Ok(entries) => Ok(ExifDataV { mime: spec_detect_type(s), entries }),
            },
        }
    } else {
        match spec_parse_tiff(s) {
            Err(e) => Err(e),
            Ok(entries) => Ok(ExifDataV { mime: spec_detect_type(s), entries }),
        }
    }
}

/// Parse a byte buffer that should contain a TIFF or JPEG image: detect
/// the container and extract the EXIF data, as `spec_parse_buffer`.
pub fn parse_buffer(contents: &[u8]) -> (r: ExifResult)
    ensures
        r matches Ok(d) ==> (spec_parse_buffer(contents@) matches Ok(dv) && d@ == dv),
        r matches Err(e) ==> (spec_parse_buffer(contents@) matches Err(ev) && e@ == ev),
{
    let n: usize = contents.len();
    if n < 11 {
        return Err(ExifError::FileTypeUnknown);
    }
    let jpeg: bool = contents[0] == 0xff && contents[1] == 0xd8 && contents[2] == 0xff && ((
    contents[6] == 0x4a && contents[7] == 0x46 && contents[8] == 0x49 && contents[9] == 0x46
        && contents[10] == 0) || (contents[6] == 0x45 && contents[7] == 0x78 && contents[8] == 0x69
        && contents[9] == 0x66 && contents[10] == 0));
    let tiff_le: bool = contents[0] == 0x49 && contents[1] == 0x49 && contents[2] == 42
        && contents[3] == 0;
    let tiff_be: bool = contents[0] == 0x4d && contents[1] == 0x4d && contents[2] == 0
        && contents[3] == 42;
    if !jpeg && !tiff_le && !tiff_be {
        return Err(ExifError::FileTypeUnknown);
    }
    let mime = detect_type(contents);
    if jpeg {
        match find_embedded_tiff_in_jpeg(contents) {
            Err(e) => Err(e),
            Ok((offset, size)) => {
                proof {
                    lemma_scan_exif_ok_bounds(contents@, 2);
                }
                let sub = slice_subrange(contents, offset, offset + size);
                match parse_tiff(sub) {
                    Err(e) => Err(e),
                    Ok(entries) => Ok(ExifData { mime: String::from_str(mime), entries }),
                }
            },
        }
    } else {
        match parse_tiff(contents) {
            Err(e) => Err(e),
            Ok(entries) => Ok(ExifData { mime: String::from_str(mime), entries }),
        }
    }
}

} // verus!
