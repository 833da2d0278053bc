//! Best-effort parsing of the Nikon MakerNote: the blob carries a small
//! vendor header and then a complete embedded TIFF, whose single
//! directory is walked with offsets relative to the inner buffer.  Any
//! failure to recognize the structure yields no entries; it is never a
//! fatal error.

use crate::ifdformat::numarray_to_string;
use crate::ifdformat::spec_join_csv;
use crate::lowlevel::read_u16;
use crate::lowlevel::read_u32;
use crate::lowlevel::spec_read_u16;
use crate::lowlevel::spec_read_u32;
use crate::numfmt::hex_byte;
use crate::numfmt::spec_hex_byte;
use crate::tiff::parse_exif_ifd;
use crate::tiff::parse_ifd;
use crate::tiff::spec_parse_exif_ifd;
use crate::tiff::spec_raw_ifd_entry;
use crate::types::ExifEntry;
use crate::types::ExifEntryV;
use crate::types::IfdFormat;
use crate::types::Namespace;
use crate::types_impl::spec_copy_data;
use vstd::prelude::*;
use vstd::slice::slice_subrange;
use vstd::string::*;

verus! {

/// Whether some record from `i` on, once its payload is resolved, is the
/// Nikon version tag announcing the newer vendor layout: tag 1, opaque
/// format, and the four payload bytes `0211`.
pub open spec fn spec_nikon_v3_from(
    le: bool,
    listing: Seq<u8>,
    i: nat,
    count: nat,
    contents: Seq<u8>,
) -> bool
    decreases count - i,
{
    if i >= count {
        false
    } else {
        let e = spec_raw_ifd_entry(Namespace::NikonFormat2, le, listing, i as int);
        let resolved = spec_copy_data(e, contents);
        (resolved.1 && resolved.0.tag == 1 && resolved.0.format == IfdFormat::Undefined
            && resolved.0.data.len() == 4 && resolved.0.data[0] == 0x30 && resolved.0.data[1]
            == 0x32 && resolved.0.data[2] == 0x31 && resolved.0.data[3] == 0x31)
            || spec_nikon_v3_from(le, listing, i + 1, count, contents)
    }
}

/// The entries of the Nikon inner directory at `ifd0_offset` of the inner
/// buffer: nothing when the count or the listing (with its trailing
/// next-directory word) does not fit; otherwise the directory is scanned
/// once for the version tag to pick the vendor namespace, and then deep
/// parsed under it.
pub open spec fn spec_parse_nikon_ifd(le: bool, ifd0_offset: nat, contents: Seq<u8>) -> Seq<
    ExifEntryV,
> {
    if contents.len() < ifd0_offset + 2 {
        Seq::empty()
    } else {
        let count = spec_read_u16(
            le,
            contents.subrange(ifd0_offset as int, ifd0_offset as int + 2),
        ) as nat;
        if contents.len() < ifd0_offset + 2 + count * 12 + 4 {
            Seq::empty()
        } else {
            let listing = contents.subrange(
                ifd0_offset as int + 2,
                ifd0_offset as int + 2 + (count * 12) as int,
            );
            let ns = if spec_nikon_v3_from(le, listing, 0, count, contents) {
                Namespace::NikonFormat3
            } else {
                Namespace::NikonFormat2
            };
            match spec_parse_exif_ifd(ns, false, le, contents, ifd0_offset) {
                Ok(es) => es,
                Err(_) => Seq::empty(),
            }
        }
    }
}

/// Parse the inner directory of a Nikon MakerNote and append what it
/// holds, as `spec_parse_nikon_ifd`; never fatal.
pub fn parse_nikon_ifd(
    le: bool,
    ifd0_offset: usize,
    contents: &[u8],
    exif_entries: &mut Vec<ExifEntry>,
)
    ensures
        final(exif_entries).deep_view() == old(exif_entries).deep_view() + spec_parse_nikon_ifd(
            le,
            ifd0_offset as nat,
            contents@,
        ),
{
    let n: usize = contents.len();
    if n < 2 || ifd0_offset > n - 2 {
        return ;
    }
    let count = read_u16(le, slice_subrange(contents, ifd0_offset, ifd0_offset + 2));
    let ifd_length: usize = count as usize * 12 + 4;
    if n - (ifd0_offset + 2) < ifd_length {
        return ;
    }
    let listing = slice_subrange(
        contents,
        ifd0_offset + 2,
        ifd0_offset + 2 + count as usize * 12,
    );
    let (ifd, _next) = parse_ifd(Namespace::NikonFormat2, true, le, count, listing);
    proof {
        assert(ifd.deep_view().len() == count as nat);
        assert(ifd@.len() == ifd.deep_view().len());
    }
    let mut found: bool = false;
    let mut i: usize = 0;
    while i < ifd.len()
        invariant
            i <= ifd@.len(),
            ifd@.len() == count,
            ifd.deep_view() == crate::tiff::spec_parse_ifd(
                Namespace::NikonFormat2,
                le,
                listing@,
                count as nat,
            ),
            forall|j: int| 0 <= j < count ==> (#[trigger] ifd.deep_view()[j]).data.len() == 4,
            spec_nikon_v3_from(le, listing@, 0, count as nat, contents@) == (found
                || spec_nikon_v3_from(le, listing@, i as nat, count as nat, contents@)),
        decreases ifd@.len() - i,
    {
        proof {
            assert(ifd.deep_view()[i as int] == ifd@[i as int]@);
            assert(ifd.deep_view()[i as int].data.len() == 4);
        }
        let ghost raw = ifd.deep_view()[i as int];
        let mut entry = ifd[i].duplicate();
        let found_before: bool = found;
        if entry.copy_data(contents) {
            if entry.tag == 0x0001 && entry.format == IfdFormat::Undefined && entry.data.len() == 4
                && entry.data[0] == 0x30 && entry.data[1] == 0x32 && entry.data[2] == 0x31
                && entry.data[3] == 0x31 {
                found = true;
            }
        }
        proof {
            let cond = {
                let resolved = spec_copy_data(raw, contents@);
                resolved.1 && resolved.0.tag == 1 && resolved.0.format == IfdFormat::Undefined
                    && resolved.0.data.len() == 4 && resolved.0.data[0] == 0x30
                    && resolved.0.data[1] == 0x32 && resolved.0.data[2] == 0x31
                    && resolved.0.data[3] == 0x31
            };
            assert(found == (found_before || cond));
            assert(spec_nikon_v3_from(le, listing@, i as nat, count as nat, contents@) == (cond
                || spec_nikon_v3_from(le, listing@, i as nat + 1, count as nat, contents@)));
        }
        i = i + 1;
    }
    let ns = if found {
        Namespace::NikonFormat3
    } else {
        Namespace::NikonFormat2
    };
    let _ = parse_exif_ifd(ns, false, le, contents, ifd0_offset, exif_entries);
}

/// The entries of the embedded TIFF of a Nikon MakerNote: nothing unless
/// the inner buffer carries a TIFF byte-order signature; otherwise the
/// walk of the inner directory the signature's offset word names.
pub open spec fn spec_parse_nikon_tiff(contents: Seq<u8>) -> Seq<ExifEntryV> {
    if contents.len() < 8 {
        Seq::empty()
    } else if contents[0] == 0x49 && contents[1] == 0x49 && contents[2] == 42 && contents[3]
        == 0 {
        spec_parse_nikon_ifd(true, spec_read_u32(true, contents.subrange(4, 8)) as nat, contents)
    } else if contents[0] == 0x4d && contents[1] == 0x4d && contents[2] == 0 && contents[3]
        == 42 {
        spec_parse_nikon_ifd(false, spec_read_u32(false, contents.subrange(4, 8)) as nat, contents)
    } else {
        Seq::empty()
    }
}

/// Parse the embedded TIFF of a Nikon MakerNote, as
/// `spec_parse_nikon_tiff`; the return reports only whether the preamble
/// looked like a TIFF at all.
fn parse_nikon_tiff(contents: &[u8], exif_entries: &mut Vec<ExifEntry>) -> (ok: bool)
    ensures
        final(exif_entries).deep_view() == old(exif_entries).deep_view() + spec_parse_nikon_tiff(
            contents@,
        ),
{
    if contents.len() < 8 {
        return false;
    }
    let le: bool;
    if contents[0] == 0x49 && contents[1] == 0x49 && contents[2] == 42 && contents[3] == 0 {
        le = true;
    } else if contents[0] == 0x4d && contents[1] == 0x4d && contents[2] == 0 && contents[3]
        == 42 {
        le = false;
    } else {
        return false;
    }
    let offset = read_u32(le, slice_subrange(contents, 4, 8)) as usize;
    parse_nikon_ifd(le, offset, contents, exif_entries);
    true
}

/// A byte slice as its two-digit lowercase hexadecimal values joined by
/// `, `.
pub fn hex(numbers: &[u8]) -> (s: String)
    ensures
        s@ == spec_join_csv(numbers@.map_values(|b: u8| spec_hex_byte(b as nat))),
{
    let mut items: Vec<String> = Vec::new();
    let mut i: usize = 0;
    while i < numbers.len()
        invariant
            i <= numbers@.len(),
            items@.len() == i,
            forall|j: int|
                0 <= j < i ==> #[trigger] items@[j]@ == spec_hex_byte(numbers@[j] as nat),
        decreases numbers@.len() - i,
    {
        items.push(hex_byte(numbers[i]));
        i = i + 1;
    }
    proof {
        assert(items.deep_view() =~~= numbers@.map_values(|b: u8| spec_hex_byte(b as nat)));
    }
    numarray_to_string(&items)
}

/// The entries a Nikon MakerNote blob yields: the embedded TIFF after the
/// ten-byte vendor header, when the blob is long enough to hold one.
pub open spec fn spec_nikon_makernote(raw: Seq<u8>) -> Seq<ExifEntryV> {
    if raw.len() >= 10 {
        spec_parse_nikon_tiff(raw.skip(10))
    } else {
        Seq::empty()
    }
}

/// Parse a Nikon MakerNote blob and append whatever its embedded TIFF
/// holds, as `spec_nikon_makernote`; never fatal.
pub fn nikon_makernote(raw: &Vec<u8>, _main_le: bool, exif_entries: &mut Vec<ExifEntry>)
    ensures
        final(exif_entries).deep_view() == old(exif_entries).deep_view() + spec_nikon_makernote(
            raw@,
        ),
{
    if raw.len() >= 10 {
        proof {
            assert(raw@.subrange(10, raw@.len() as int) =~= raw@.skip(10));
        }
        let inner = slice_subrange(raw.as_slice(), 10, raw.len());
        let _ = parse_nikon_tiff(inner, exif_entries);
    }
}

} // verus!
