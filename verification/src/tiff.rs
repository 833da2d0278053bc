//! The IFD walker: the superficial entry parse, the deep parse of one
//! directory, the walk of IFD0 with its EXIF and GPS sub-directories and
//! vendor MakerNotes, and the TIFF entry point.

use crate::exifpost::exif_postprocessing;
use crate::exifpost::spec_postprocess;
use crate::lowlevel::read_u16;
use crate::lowlevel::read_u32;
use crate::lowlevel::spec_read_u16;
use crate::lowlevel::spec_read_u32;
use crate::nikon::nikon_makernote;
use crate::nikon::spec_nikon_makernote;
use crate::numfmt::hex_byte;
use crate::numfmt::spec_hex_byte;
use crate::types::ExifEntry;
use crate::types::ExifEntryResult;
use crate::types::ExifEntryV;
use crate::types::ExifError;
use crate::types::ExifErrorV;
use crate::types::ExifTag;
use crate::types::IfdEntry;
use crate::types::IfdEntryV;
use crate::types::IfdTag;
use crate::types::Namespace;
use crate::types::TagValue;
use crate::types::TagValueV;
use crate::types_impl::duplicate_entries;
use crate::types_impl::spec_copy_data;
use crate::types_impl::spec_data_as_offset;
use crate::types_impl::spec_format_new;
use crate::types_impl::spec_into_exif_entry;
use crate::types::spec_tag_code;
use vstd::prelude::*;
use vstd::slice::slice_subrange;
use vstd::slice::slice_to_vec;
use vstd::string::*;

verus! {

/// The `i`-th raw twelve-byte record of an IFD listing: tag, format code,
/// element count, and the four in-place payload bytes, read with the
/// directory's byte order.
pub open spec fn spec_raw_ifd_entry(ns: Namespace, le: bool, listing: Seq<u8>, i: int) -> IfdEntryV {
    IfdEntryV {
        namespace: ns,
        tag: spec_read_u16(le, listing.subrange(12 * i, 12 * i + 2)),
        format: spec_format_new(spec_read_u16(le, listing.subrange(12 * i + 2, 12 * i + 4))),
        count: spec_read_u32(le, listing.subrange(12 * i + 4, 12 * i + 8)),
        data: listing.subrange(12 * i + 8, 12 * i + 12),
        le,
    }
}

/// The raw records of an IFD listing, in physical order.
pub open spec fn spec_parse_ifd(ns: Namespace, le: bool, listing: Seq<u8>, count: nat) -> Seq<
    IfdEntryV,
> {
    Seq::new(count, |i: int| spec_raw_ifd_entry(ns, le, listing, i))
}

/// Superficial parse of an IFD listing: the raw records, and (for a
/// top-level directory) the offset of the next IFD stored right after
/// them.  Cannot fail.
pub fn parse_ifd(ns: Namespace, subifd: bool, le: bool, count: u16, contents: &[u8]) -> (r: (
    Vec<IfdEntry>,
    usize,
))
    requires
        contents@.len() >= count * 12 + (if subifd { 0int } else { 4 }),
    ensures
        r.0.deep_view() == spec_parse_ifd(ns, le, contents@, count as nat),
        forall|i: int| 0 <= i < count ==> (#[trigger] r.0.deep_view()[i]).data.len() == 4,
        subifd ==> r.1 == 0,
        !subifd ==> r.1 == spec_read_u32(
            le,
            contents@.subrange(count * 12, count * 12 + 4),
        ) as usize,
{
    let mut entries: Vec<IfdEntry> = Vec::new();
    let mut i: usize = 0;
    while i < count as usize
        invariant
            i <= count,
            contents@.len() >= count * 12,
            entries@.len() == i,
            forall|j: int|
                0 <= j < i ==> (#[trigger] entries@[j])@ == spec_raw_ifd_entry(
                    ns,
                    le,
                    contents@,
                    j,
                ),
        decreases count - i,
    {
        let offset: usize = i * 12;
        let tag = read_u16(le, slice_subrange(contents, offset, offset + 2));
        let format = read_u16(le, slice_subrange(contents, offset + 2, offset + 4));
        let ecount = read_u32(le, slice_subrange(contents, offset + 4, offset + 8));
        let data = slice_to_vec(slice_subrange(contents, offset + 8, offset + 12));
        let entry = IfdEntry {
            namespace: ns,
            tag,
            format: crate::types::IfdFormat::new(format),
            count: ecount,
            le,
            data,
        };
        let ghost ev = entry@;
        entries.push(entry);
        proof {
            assert(ev == spec_raw_ifd_entry(ns, le, contents@, i as int));
        }
        i = i + 1;
    }
    let next_ifd: usize = if subifd {
        0
    } else {
        read_u32(le, slice_subrange(contents, count as usize * 12, count as usize * 12 + 4))
            as usize
    };
    proof {
        assert(forall|j: int|
            0 <= j < count ==> (#[trigger] entries.deep_view()[j]) == entries@[j]@);
        assert(entries.deep_view() =~~= spec_parse_ifd(ns, le, contents@, count as nat));
    }
    (entries, next_ifd)
}

/// The interpreted entries of one IFD, from record `i` on: each record's
/// payload is resolved against the whole buffer, records whose payload
/// cannot be resolved are skipped, and the rest are interpreted.
pub open spec fn spec_ifd_exif_entries_from(
    ns: Namespace,
    gps: bool,
    le: bool,
    contents: Seq<u8>,
    listing: Seq<u8>,
    i: nat,
    count: nat,
) -> Seq<ExifEntryV>
    decreases count - i,
{
    if i >= count {
        Seq::empty()
    } else {
        let e = spec_raw_ifd_entry(ns, le, listing, i as int);
        let resolved = spec_copy_data(e, contents);
        (if resolved.1 {
            seq![spec_into_exif_entry(resolved.0, gps)]
        } else {
            Seq::empty()
        }) + spec_ifd_exif_entries_from(ns, gps, le, contents, listing, i + 1, count)
    }
}

/// The result of deep-parsing one IFD at `offset`: its interpreted
/// entries, or the truncation error when the entry count or the listing
/// itself does not fit in the buffer.
pub open spec fn spec_parse_exif_ifd(
    ns: Namespace,
    gps: bool,
    le: bool,
    contents: Seq<u8>,
    offset: nat,
) -> Result<Seq<ExifEntryV>, ExifErrorV> {
    if contents.len() < offset + 2 {
        Err(ExifErrorV::ExifIfdTruncated("Truncated at dir entry count"@))
    } else {
        let count = spec_read_u16(le, contents.subrange(offset as int, offset as int + 2)) as nat;
        if contents.len() < offset + 2 + count * 12 {
            Err(ExifErrorV::ExifIfdTruncated("Truncated at dir listing"@))
        } else {
            let listing = contents.subrange(
                offset as int + 2,
                offset as int + 2 + (count * 12) as int,
            );
            Ok(spec_ifd_exif_entries_from(ns, gps, le, contents, listing, 0, count))
        }
    }
}

/// Deep-parse one IFD and append its interpreted entries, as
/// `spec_parse_exif_ifd`; on error nothing is appended.
pub fn parse_exif_ifd(
    ns: Namespace,
    gps: bool,
    le: bool,
    contents: &[u8],
    ioffset: usize,
    exif_entries: &mut Vec<ExifEntry>,
) -> (r: Result<(), ExifError>)
    ensures
        r matches Ok(()) ==> (spec_parse_exif_ifd(ns, gps, le, contents@, ioffset as nat)
            matches Ok(es) && final(exif_entries).deep_view() == old(exif_entries).deep_view()
            + es),
        r matches Err(e) ==> (spec_parse_exif_ifd(ns, gps, le, contents@, ioffset as nat)
            matches Err(ev) && e@ == ev && final(exif_entries).deep_view() == old(
            exif_entries,
        ).deep_view()),
{
    let n: usize = contents.len();
    if n < 2 || ioffset > n - 2 {
        return Err(ExifError::ExifIfdTruncated(String::from_str("Truncated at dir entry count")));
    }
    let count = read_u16(le, slice_subrange(contents, ioffset, ioffset + 2));
    let ifd_length: usize = count as usize * 12;
    if n - (ioffset + 2) < ifd_length {
        return Err(ExifError::ExifIfdTruncated(String::from_str("Truncated at dir listing")));
    }
    let listing = slice_subrange(contents, ioffset + 2, ioffset + 2 + ifd_length);
    let (ifd, _next) = parse_ifd(ns, true, le, count, listing);
    proof {
        assert(ifd.deep_view().len() == count as nat);
        assert(ifd@.len() == ifd.deep_view().len());
    }
    let ghost all = spec_ifd_exif_entries_from(
        ns,
        gps,
        le,
        contents@,
        listing@,
        0,
        count as nat,
    );
    let mut i: usize = 0;
    while i < ifd.len()
        invariant
            i <= ifd@.len(),
            ifd@.len() == count,
            ifd.deep_view() == spec_parse_ifd(ns, le, listing@, count as nat),
            forall|j: int| 0 <= j < count ==> (#[trigger] ifd.deep_view()[j]).data.len() == 4,
            old(exif_entries).deep_view() + all == exif_entries.deep_view()
                + spec_ifd_exif_entries_from(
                ns,
                gps,
                le,
                contents@,
                listing@,
                i as nat,
                count as nat,
            ),
        decreases ifd@.len() - i,
    {
        proof {
            assert(ifd.deep_view()[i as int] == ifd@[i as int]@);
            assert(ifd.deep_view()[i as int].data.len() == 4);
        }
        let mut entry = ifd[i].duplicate();
        let ghost raw = entry@;
        if entry.copy_data(contents) {
            let ee = entry.into_exif_entry(gps);
            exif_entries.push(ee);
        }
        proof {
            assert(spec_ifd_exif_entries_from(
                ns,
                gps,
                le,
                contents@,
                listing@,
                i as nat,
                count as nat,
            ) == (if spec_copy_data(raw, contents@).1 {
                seq![spec_into_exif_entry(spec_copy_data(raw, contents@).0, gps)]
            } else {
                Seq::<ExifEntryV>::empty()
            }) + spec_ifd_exif_entries_from(
                ns,
                gps,
                le,
                contents@,
                listing@,
                i as nat + 1,
                count as nat,
            ));
            assert(old(exif_entries).deep_view() + all =~~= exif_entries.deep_view()
                + spec_ifd_exif_entries_from(
                ns,
                gps,
                le,
                contents@,
                listing@,
                i as nat + 1,
                count as nat,
            ));
        }
        i = i + 1;
    }
    Ok(())
}

/// The entries the sub-directory scan of IFD0 adds: for each record whose
/// tag is the EXIF or GPS pointer, the deep parse of the directory at the
/// offset it holds (in the GPS namespace for the GPS pointer).  A pointer
/// whose offset lies beyond the buffer, or a sub-directory that cannot be
/// read, is a fatal error.
pub open spec fn spec_subifd_entries_from(
    le: bool,
    contents: Seq<u8>,
    listing: Seq<u8>,
    i: nat,
    count: nat,
) -> Result<Seq<ExifEntryV>, ExifErrorV>
    decreases count - i,
{
    if i >= count {
        Ok(Seq::empty())
    } else {
        let e = spec_raw_ifd_entry(Namespace::Standard, le, listing, i as int);
        if e.tag != spec_tag_code(ExifTag::ExifOffset) && e.tag != spec_tag_code(
            ExifTag::GPSInfo,
        ) {
            spec_subifd_entries_from(le, contents, listing, i + 1, count)
        } else {
            let exif_offset = spec_data_as_offset(e);
            if contents.len() < exif_offset {
                Err(ExifErrorV::ExifIfdTruncated("Exif SubIFD goes past EOF"@))
            } else {
                match spec_parse_exif_ifd(
                    Namespace::Standard,
                    e.tag == spec_tag_code(ExifTag::GPSInfo),
                    le,
                    contents,
                    exif_offset,
                ) {
                    Err(er) => Err(er),
                    Ok(es) => match spec_subifd_entries_from(le, contents, listing, i + 1, count) {
                        Err(er) => Err(er),
                        Ok(rest) => Ok(es + rest),
                    },
                }
            }
        }
    }
}

/// Whether an interpreted entry is a standard MakerNote whose opaque blob
/// carries the Nikon vendor signature and enough bytes for an embedded
/// TIFF.
pub open spec fn spec_is_nikon_makernote(e: ExifEntryV) -> bool {
    e.namespace == Namespace::Standard && e.tag == IfdTag::Exif(ExifTag::MakerNote)
        && (e.value matches TagValueV::Undefined(a, _) && a.len() >= 18 && a[0] == 0x4e && a[1]
        == 0x69 && a[2] == 0x6b && a[3] == 0x6f && a[4] == 0x6e && a[5] == 0)
}

/// The vendor entries recovered from the MakerNote blobs among the
/// already collected entries, in order, appended after everything else.
pub open spec fn spec_makernote_entries_from(all: Seq<ExifEntryV>, i: nat) -> Seq<ExifEntryV>
    decreases all.len() - i,
{
    if i >= all.len() {
        Seq::empty()
    } else {
        (if spec_is_nikon_makernote(all[i as int]) {
            spec_nikon_makernote(all[i as int].value->Undefined_0)
        } else {
            Seq::empty()
        }) + spec_makernote_entries_from(all, i + 1)
    }
}

/// Every entry postprocessed against the whole (pre-postprocessing) list.
pub open spec fn spec_postprocessed(all: Seq<ExifEntryV>) -> Seq<ExifEntryV> {
    Seq::new(all.len(), |i: int| spec_postprocess(all[i], all))
}

/// The full walk from IFD0: the deep parse of IFD0, then of the EXIF and
/// GPS sub-directories its pointer tags name, then the vendor entries of
/// any recognized MakerNote blobs, and finally the cross-tag
/// postprocessing pass over the whole list.
pub open spec fn spec_parse_ifds(le: bool, ifd0_offset: nat, contents: Seq<u8>) -> Result<
    Seq<ExifEntryV>,
    ExifErrorV,
> {
    match spec_parse_exif_ifd(Namespace::Standard, false, le, contents, ifd0_offset) {
        Err(e) => Err(e),
        Ok(es0) => {
            let count = spec_read_u16(
                le,
                contents.subrange(ifd0_offset as int, ifd0_offset as int + 2),
            ) as nat;
            let listing = contents.subrange(
                ifd0_offset as int + 2,
                ifd0_offset as int + 2 + (count * 12) as int,
            );
            match spec_subifd_entries_from(le, contents, listing, 0, count) {
                Err(e) => Err(e),
                Ok(sub) => {
                    let all = es0 + sub;
                    let with_vendor = all + spec_makernote_entries_from(all, 0);
                    Ok(spec_postprocessed(with_vendor))
                },
            }
        },
    }
}

/// Scan the raw records of IFD0 for the EXIF and GPS pointer tags and
/// append the entries of the sub-directories they name, as
/// `spec_subifd_entries_from`; on error nothing more is appended.
fn walk_subifds(
    le: bool,
    contents: &[u8],
    ifd: &Vec<IfdEntry>,
    Ghost(listing): Ghost<Seq<u8>>,
    exif_entries: &mut Vec<ExifEntry>,
) -> (r: Result<(), ExifError>)
    requires
        ifd.deep_view() == spec_parse_ifd(Namespace::Standard, le, listing, ifd@.len() as nat),
        forall|j: int| 0 <= j < ifd@.len() ==> (#[trigger] ifd.deep_view()[j]).data.len() == 4,
    ensures
        r matches Ok(()) ==> (spec_subifd_entries_from(
            le,
            contents@,
            listing,
            0,
            ifd@.len() as nat,
        ) matches Ok(sub) && final(exif_entries).deep_view() == old(exif_entries).deep_view()
            + sub),
        r matches Err(e) ==> (spec_subifd_entries_from(
            le,
            contents@,
            listing,
            0,
            ifd@.len() as nat,
        ) matches Err(ev) && e@ == ev),
{
    let n: usize = contents.len();
    let count: usize = ifd.len();
    let mut i: usize = 0;
    while i < count
        invariant
            i <= count,
            count == ifd@.len(),
            n == contents@.len(),
            ifd.deep_view() == spec_parse_ifd(Namespace::Standard, le, listing, count as nat),
            forall|j: int| 0 <= j < count ==> (#[trigger] ifd.deep_view()[j]).data.len() == 4,
            spec_subifd_entries_from(le, contents@, listing, i as nat, count as nat) matches Ok(
                rest,
            ) ==> (spec_subifd_entries_from(le, contents@, listing, 0, count as nat) matches Ok(
                total,
            ) && old(exif_entries).deep_view() + total == exif_entries.deep_view() + rest),
            spec_subifd_entries_from(le, contents@, listing, i as nat, count as nat) matches Err(
                e2,
            ) ==> (spec_subifd_entries_from(le, contents@, listing, 0, count as nat) matches Err(
                e1,
            ) && e1 == e2),
        decreases count - i,
    {
        proof {
            assert(ifd.deep_view()[i as int] == ifd@[i as int]@);
            assert(ifd.deep_view()[i as int].data.len() == 4);
        }
        let ghost raw = ifd.deep_view()[i as int];
        let t: u16 = ifd[i].tag;
        let is_pointer: bool = t == ExifTag::ExifOffset.code() || t == ExifTag::GPSInfo.code();
        if is_pointer {
            let gps: bool = t == ExifTag::GPSInfo.code();
            let exif_offset: usize = ifd[i].data_as_offset();
            if n < exif_offset {
                proof {
                    assert(spec_subifd_entries_from(le, contents@, listing, i as nat, count as nat)
                        matches Err(ev) && ev == ExifErrorV::ExifIfdTruncated(
                        "Exif SubIFD goes past EOF"@,
                    ));
                }
                return Err(
                    ExifError::ExifIfdTruncated(String::from_str("Exif SubIFD goes past EOF")),
                );
            }
            match parse_exif_ifd(
                Namespace::Standard,
                gps,
                le,
                contents,
                exif_offset,
                exif_entries,
            ) {
                Ok(_) => (),
                Err(e) => {
                    proof {
                        assert(spec_subifd_entries_from(
                            le,
                            contents@,
                            listing,
                            i as nat,
                            count as nat,
                        ) matches Err(ev) && ev == e@);
                    }
                    return Err(e);
                },
            }
        }
        proof {
            if spec_subifd_entries_from(le, contents@, listing, i as nat + 1, count as nat) is Ok {
                assert(spec_subifd_entries_from(le, contents@, listing, i as nat, count as nat)
                    matches Ok(rest0) && spec_subifd_entries_from(
                    le,
                    contents@,
                    listing,
                    i as nat + 1,
                    count as nat,
                ) matches Ok(rest1) && {
                    let head = if raw.tag == spec_tag_code(ExifTag::ExifOffset) || raw.tag
                        == spec_tag_code(ExifTag::GPSInfo) {
                        spec_parse_exif_ifd(
                            Namespace::Standard,
                            raw.tag == spec_tag_code(ExifTag::GPSInfo),
                            le,
                            contents@,
                            spec_data_as_offset(raw),
                        )->Ok_0
                    } else {
                        Seq::<ExifEntryV>::empty()
                    };
                    rest0 =~~= head + rest1
                });
            }
        }
        i = i + 1;
    }
    Ok(())
}

/// Append the vendor entries of every recognized MakerNote among the
/// entries collected so far, as `spec_makernote_entries_from`.
fn append_makernotes(le: bool, exif_entries: &mut Vec<ExifEntry>)
    ensures
        final(exif_entries).deep_view() == old(exif_entries).deep_view()
            + spec_makernote_entries_from(old(exif_entries).deep_view(), 0),
{
    let ghost all = exif_entries.deep_view();
    let n0: usize = exif_entries.len();
    let mut k: usize = 0;
    while k < n0
        invariant
            k <= n0,
            n0 == all.len(),
            exif_entries.deep_view() + spec_makernote_entries_from(all, k as nat) == all
                + spec_makernote_entries_from(all, 0),
            all.len() <= exif_entries@.len(),
            forall|j: int| 0 <= j < all.len() ==> #[trigger] exif_entries.deep_view()[j] == all[j],
        decreases n0 - k,
    {
        proof {
            assert(exif_entries.deep_view()[k as int] == exif_entries@[k as int]@);
            assert(exif_entries.deep_view()[k as int] == all[k as int]);
        }
        let mut blob: Option<Vec<u8>> = None;
        let e = &exif_entries[k];
        if e.namespace == Namespace::Standard && e.tag == IfdTag::Exif(ExifTag::MakerNote) {
            if let TagValue::Undefined(a, _) = &e.value {
                if a.len() >= 18 && a[0] == 0x4e && a[1] == 0x69 && a[2] == 0x6b && a[3] == 0x6f
                    && a[4] == 0x6e && a[5] == 0 {
                    blob = Some(slice_to_vec(a.as_slice()));
                }
            }
        }
        match blob {
            Some(b) => {
                proof {
                    assert(spec_is_nikon_makernote(all[k as int]));
                    assert(b@ == all[k as int].value->Undefined_0);
                }
                nikon_makernote(&b, le, exif_entries);
            },
            None => {
                proof {
                    assert(!spec_is_nikon_makernote(all[k as int]));
                }
            },
        }
        proof {
            assert(spec_makernote_entries_from(all, k as nat) == (if spec_is_nikon_makernote(
                all[k as int],
            ) {
                spec_nikon_makernote(all[k as int].value->Undefined_0)
            } else {
                Seq::<ExifEntryV>::empty()
            }) + spec_makernote_entries_from(all, k as nat + 1));
            assert(exif_entries.deep_view() + spec_makernote_entries_from(all, k as nat + 1) =~~=
            all + spec_makernote_entries_from(all, 0));
        }
        k = k + 1;
    }
    proof {
        assert(exif_entries.deep_view() =~~= all + spec_makernote_entries_from(all, 0));
    }
}

/// Postprocess every entry against the whole list, as
/// `spec_postprocessed`.
fn postprocess_all(exif_entries: Vec<ExifEntry>) -> (out: Vec<ExifEntry>)
    ensures
        out.deep_view() == spec_postprocessed(exif_entries.deep_view()),
{
    let ghost with_vendor = exif_entries.deep_view();
    let copy = duplicate_entries(&exif_entries);
    let mut out: Vec<ExifEntry> = Vec::new();
    let mut p: usize = 0;
    while p < copy.len()
        invariant
            p <= copy@.len(),
            copy.deep_view() == with_vendor,
            out@.len() == p,
            forall|j: int|
                0 <= j < p ==> (#[trigger] out@[j])@ == spec_postprocess(
                    with_vendor[j],
                    with_vendor,
                ),
        decreases copy@.len() - p,
    {
        proof {
            assert(copy.deep_view()[p as int] == copy@[p as int]@);
        }
        let mut e = copy[p].duplicate();
        exif_postprocessing(&mut e, &copy);
        out.push(e);
        p = p + 1;
    }
    proof {
        assert(forall|j: int| 0 <= j < out@.len() ==> (#[trigger] out.deep_view()[j]) == out@[j]@);
        assert(out.deep_view() =~~= spec_postprocessed(with_vendor));
    }
    out
}

/// Walk IFD0 and everything reachable from it, as `spec_parse_ifds`.
pub fn parse_ifds(le: bool, ifd0_offset: usize, contents: &[u8]) -> (r: ExifEntryResult)
    ensures
        r matches Ok(es) ==> (spec_parse_ifds(le, ifd0_offset as nat, contents@) matches Ok(ev)
            && es.deep_view() == ev),
        r matches Err(e) ==> (spec_parse_ifds(le, ifd0_offset as nat, contents@) matches Err(ev)
            && e@ == ev),
{
    let mut exif_entries: Vec<ExifEntry> = Vec::new();
    match parse_exif_ifd(Namespace::Standard, false, le, contents, ifd0_offset, &mut exif_entries) {
        Ok(_) => (),
        Err(e) => {
            return Err(e);
        },
    }
    let n: usize = contents.len();
    proof {
        assert(contents@.len() >= ifd0_offset + 2);
    }
    let count = read_u16(le, slice_subrange(contents, ifd0_offset, ifd0_offset + 2));
    let ifd_length: usize = count as usize * 12;
    proof {
        assert(contents@.len() >= ifd0_offset + 2 + count * 12);
    }
    let listing = slice_subrange(contents, ifd0_offset + 2, ifd0_offset + 2 + ifd_length);
    let (ifd, _next) = parse_ifd(Namespace::Standard, true, le, count, listing);
    proof {
        assert(ifd.deep_view().len() == count as nat);
        assert(ifd@.len() == ifd.deep_view().len());
    }
    match walk_subifds(le, contents, &ifd, Ghost(listing@), &mut exif_entries) {
        Ok(_) => (),
        Err(e) => {
            return Err(e);
        },
    }
    append_makernotes(le, &mut exif_entries);
    Ok(postprocess_all(exif_entries))
}

/// The parse of a whole TIFF buffer (or of the TIFF embedded in a JPEG):
/// fewer than eight bytes is a truncation error; the first four bytes
/// must carry one of the two byte-order signatures, else the error names
/// them; the four bytes after the signature give the offset of IFD0, and
/// the walk proceeds from there.
pub open spec fn spec_parse_tiff(contents: Seq<u8>) -> Result<Seq<ExifEntryV>, ExifErrorV> {
    if contents.len() < 8 {
        Err(ExifErrorV::TiffTruncated)
    } else if contents[0] == 0x49 && contents[1] == 0x49 && contents[2] == 42 && contents[3]
        == 0 {
        spec_parse_ifds(true, spec_read_u32(true, contents.subrange(4, 8)) as nat, contents)
    } else if contents[0] == 0x4d && contents[1] == 0x4d && contents[2] == 0 && contents[3]
        == 42 {
        spec_parse_ifds(false, spec_read_u32(false, contents.subrange(4, 8)) as nat, contents)
    } else {
        Err(
            ExifErrorV::TiffBadPreamble(
                "Preamble is "@ + spec_hex_byte(contents[0] as nat) + " "@ + spec_hex_byte(
                    contents[1] as nat,
                ) + " "@ + spec_hex_byte(contents[2] as nat) + " "@ + spec_hex_byte(
                    contents[3] as nat,
                ),
            ),
        )
    }
}

/// Parse a TIFF image, or the TIFF embedded in a JPEG, into its EXIF
/// entries, as `spec_parse_tiff`.
pub fn parse_tiff(contents: &[u8]) -> (r: ExifEntryResult)
    ensures
        r matches Ok(es) ==> (spec_parse_tiff(contents@) matches Ok(ev) && es.deep_view() == ev),
        r matches Err(e) ==> (spec_parse_tiff(contents@) matches Err(ev) && e@ == ev),
{
    if contents.len() < 8 {
        return Err(ExifError::TiffTruncated);
    }
    let le: bool;
    if contents[0] == 0x49 && contents[1] == 0x49 && contents[2] == 42 && contents[3] == 0 {
        le = true;
    } else if contents[0] == 0x4d && contents[1] == 0x4d && contents[2] == 0 && contents[3]
        == 42 {
        le = false;
    } else {
        let mut m = String::from_str("Preamble is ");
        let h0 = hex_byte(contents[0]);
        m.append(h0.as_str());
        m.append(" ");
        let h1 = hex_byte(contents[1]);
        m.append(h1.as_str());
        m.append(" ");
        let h2 = hex_byte(contents[2]);
        m.append(h2.as_str());
        m.append(" ");
        let h3 = hex_byte(contents[3]);
        m.append(h3.as_str());
        return Err(ExifError::TiffBadPreamble(m));
    }
    let offset = read_u32(le, slice_subrange(contents, 4, 8)) as usize;
    parse_ifds(le, offset, contents)
}

} // verus!
