//! Container sniffing: detect JPEG or TIFF from magic bytes, and locate
//! the embedded TIFF payload inside a JPEG's EXIF segment.

use crate::numfmt::spec_hex;
use crate::numfmt::hex_u128;
use crate::types::ExifError;
use crate::types::ExifErrorV;
use vstd::prelude::*;
use vstd::string::*;

verus! {

/// Whether the buffer starts like a JPEG with a JFIF or Exif application
/// segment (the fourth byte, the marker kind, is deliberately not pinned).
pub open spec fn spec_is_jpeg(s: Seq<u8>) -> bool {
    s.len() >= 11 && s[0] == 0xff && s[1] == 0xd8 && s[2] == 0xff && ((s[6] == 0x4a && s[7] == 0x46
        && s[8] == 0x49 && s[9] == 0x46 && s[10] == 0) || (s[6] == 0x45 && s[7] == 0x78 && s[8]
        == 0x69 && s[9] == 0x66 && s[10] == 0))
}

/// Whether the buffer starts with the little-endian TIFF signature.
pub open spec fn spec_is_tiff_le(s: Seq<u8>) -> bool {
    s.len() >= 4 && s[0] == 0x49 && s[1] == 0x49 && s[2] == 42 && s[3] == 0
}

/// Whether the buffer starts with the big-endian TIFF signature.
pub open spec fn spec_is_tiff_be(s: Seq<u8>) -> bool {
    s.len() >= 4 && s[0] == 0x4d && s[1] == 0x4d && s[2] == 0 && s[3] == 42
}

/// The MIME type the magic bytes announce: `image/jpeg`, `image/tiff`,
/// or the empty string for an unrecognized container (buffers shorter
/// than eleven bytes are never recognized).
pub open spec fn spec_detect_type(s: Seq<u8>) -> Seq<char> {
    if s.len() < 11 {
        ""@
    } else if spec_is_jpeg(s) {
        "image/jpeg"@
    } else if spec_is_tiff_le(s) || spec_is_tiff_be(s) {
        "image/tiff"@
    } else {
        ""@
    }
}

/// Detect the type of an image contained in a byte buffer.
pub fn detect_type(contents: &[u8]) -> (m: &'static str)
    ensures
        m@ == spec_detect_type(contents@),
{
    if contents.len() < 11 {
        return "";
    }
    if contents[0] == 0xff && contents[1] == 0xd8 && contents[2] == 0xff && contents[6] == 0x4a
        && contents[7] == 0x46 && contents[8] == 0x49 && contents[9] == 0x46 && contents[10]
        == 0 {
        return "image/jpeg";
    }
    if contents[0] == 0xff && contents[1] == 0xd8 && contents[2] == 0xff && contents[6] == 0x45
        && contents[7] == 0x78 && contents[8] == 0x69 && contents[9] == 0x66 && contents[10]
        == 0 {
        return "image/jpeg";
    }
    if contents[0] == 0x49 && contents[1] == 0x49 && contents[2] == 42 && contents[3] == 0 {
        return "image/tiff";
    }
    if contents[0] == 0x4d && contents[1] == 0x4d && contents[2] == 0 && contents[3] == 42 {
        return "image/tiff";
    }
    ""
}

/// The marker word at `offset`: two bytes, big-endian.
pub open spec fn spec_marker(s: Seq<u8>, offset: nat) -> nat {
    (s[offset as int] as nat) * 256 + (s[offset as int + 1] as nat)
}

/// Whether the six bytes at `offset` spell the EXIF segment preamble.
pub open spec fn spec_exif_preamble(s: Seq<u8>, offset: nat) -> bool {
    s[offset as int] == 0x45 && s[offset as int + 1] == 0x78 && s[offset as int + 2] == 0x69
        && s[offset as int + 3] == 0x66 && s[offset as int + 4] == 0 && s[offset as int + 5] == 0
}

/// The marker scan from `offset`: walk the JPEG marker stream until the
/// EXIF application segment is found, yielding the byte range of the TIFF
/// payload after its preamble, or the reason the scan failed: running
/// past the end, a truncated or invalid marker, an undersized marker, a
/// bad EXIF preamble, or reaching the end-of-scan marker first.
pub open spec fn spec_scan_exif(s: Seq<u8>, offset: nat) -> Result<(nat, nat), Seq<char>>
    decreases s.len() - offset,
{
    if offset >= s.len() {
        Err("Scan past EOF and no EXIF found"@)
    } else if s.len() < offset + 4 {
        Err("JPEG truncated in marker header"@)
    } else {
        let marker = spec_marker(s, offset);
        if marker < 0xff00 {
            Err("Invalid marker "@ + spec_hex(marker))
        } else {
            let size = spec_marker(s, offset + 2);
            if size < 2 {
                Err("JPEG marker size must be at least 2 (because of the size word)"@)
            } else if s.len() < offset + 2 + size {
                Err("JPEG truncated in marker body"@)
            } else if marker == 0xffe1 {
                if size < 8 {
                    Err("EXIF preamble truncated"@)
                } else if spec_exif_preamble(s, offset + 4) {
                    Ok(((offset + 10) as nat, (size - 8) as nat))
                } else {
                    Err("EXIF preamble unrecognized"@)
                }
            } else if marker == 0xffda {
                Err("Last mark found and no EXIF"@)
            } else {
                spec_scan_exif(s, offset + 2 + size)
            }
        }
    }
}

/// Where the embedded TIFF of a JPEG buffer lies: the scan from just
/// after the start-of-image marker.
pub open spec fn spec_find_embedded_tiff(s: Seq<u8>) -> Result<(nat, nat), Seq<char>> {
    spec_scan_exif(s, 2)
}

/// Find the embedded TIFF range (offset, length) in a JPEG image.  Ok
/// exactly when the marker scan of `spec_find_embedded_tiff` succeeds;
/// every failure of the scan is a `JpegWithoutExif` error carrying that
/// scan's diagnostic.
pub fn find_embedded_tiff_in_jpeg(contents: &[u8]) -> (r: Result<(usize, usize), ExifError>)
    ensures
        r matches Ok((o, l)) ==> spec_find_embedded_tiff(contents@) == Ok::<_, Seq<char>>(
            (o as nat, l as nat),
        ),
        r matches Err(e) ==> (spec_find_embedded_tiff(contents@) matches Err(msg) && e@
            == ExifErrorV::JpegWithoutExif(msg)),
{
    let n: usize = contents.len();
    let mut offset: usize = 2;
    while offset < n
        invariant
            n == contents@.len(),
            2 <= offset,
            spec_scan_exif(contents@, 2) == spec_scan_exif(contents@, offset as nat),
        decreases n - offset,
    {
        if n - offset < 4 {
            return Err(
                ExifError::JpegWithoutExif(String::from_str("JPEG truncated in marker header")),
            );
        }
        let marker: u16 = (contents[offset] as u16) * 256 + (contents[offset + 1] as u16);
        if marker < 0xff00 {
            let mut m = String::from_str("Invalid marker ");
            let h = hex_u128(marker as u128);
            m.append(h.as_str());
            return Err(ExifError::JpegWithoutExif(m));
        }
        let size: usize = (contents[offset + 2] as usize) * 256 + (contents[offset + 3] as usize);
        if size < 2 {
            return Err(
                ExifError::JpegWithoutExif(
                    String::from_str(
                        "JPEG marker size must be at least 2 (because of the size word)",
                    ),
                ),
            );
        }
        if n - (offset + 2) < size {
            return Err(
                ExifError::JpegWithoutExif(String::from_str("JPEG truncated in marker body")),
            );
        }
        if marker == 0xffe1 {
            if size < 8 {
                return Err(ExifError::JpegWithoutExif(String::from_str("EXIF preamble truncated")));
            }
            if contents[offset + 4] == 0x45 && contents[offset + 5] == 0x78 && contents[offset + 6]
                == 0x69 && contents[offset + 7] == 0x66 && contents[offset + 8] == 0 && contents[
                offset + 9] == 0 {
                return Ok((offset + 10, size - 8));
            }
            return Err(ExifError::JpegWithoutExif(String::from_str("EXIF preamble unrecognized")));
        }
        if marker == 0xffda {
            return Err(ExifError::JpegWithoutExif(String::from_str("Last mark found and no EXIF")));
        }
        offset = offset + 2 + size;
    }
    Err(ExifError::JpegWithoutExif(String::from_str("Scan past EOF and no EXIF found")))
}

} // verus!
