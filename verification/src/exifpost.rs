//! Cross-tag postprocessing: after a whole image's entries are built,
//! entries whose full interpretation depends on a sibling tag get that
//! sibling's readable text appended to their own.  Only the readable
//! string is ever touched, never the decoded value; a missing sibling
//! leaves the entry exactly as its own renderer produced it.

use crate::types::ExifEntry;
use crate::types::ExifEntryV;
use crate::types::ExifTag;
use crate::types::IfdTag;
use crate::types::TagValueV;
use vstd::prelude::*;
use vstd::string::*;

verus! {

/// The first entry of `entries` whose tag is the given recognized tag.
pub open spec fn spec_entry_for_tag(tag: ExifTag, entries: Seq<ExifEntryV>) -> Option<ExifEntryV>
    decreases entries.len(),
{
    if entries.len() == 0 {
        None
    } else if entries[0].tag == IfdTag::Exif(tag) {
        Some(entries[0])
    } else {
        spec_entry_for_tag(tag, entries.drop_first())
    }
}

/// Find the first entry with a given tag.
pub fn entry_for_tag<'a>(tag: ExifTag, entries: &'a Vec<ExifEntry>) -> (r: Option<&'a ExifEntry>)
    ensures
        r matches Some(e) ==> spec_entry_for_tag(tag, entries.deep_view()) == Some(e@),
        r is None ==> spec_entry_for_tag(tag, entries.deep_view()) is None,
{
    let mut i: usize = 0;
    proof {
        assert(entries.deep_view().skip(0) =~~= entries.deep_view());
    }
    while i < entries.len()
        invariant
            i <= entries@.len(),
            spec_entry_for_tag(tag, entries.deep_view()) == spec_entry_for_tag(
                tag,
                entries.deep_view().skip(i as int),
            ),
        decreases entries@.len() - i,
    {
        proof {
            assert(entries.deep_view().skip(i as int).drop_first() =~~= entries.deep_view().skip(
                i + 1,
            ));
            assert(entries.deep_view().skip(i as int)[0] == entries.deep_view()[i as int]);
        }
        if entries[i].tag == IfdTag::Exif(tag) {
            return Some(&entries[i]);
        }
        i = i + 1;
    }
    None
}

/// The readable string of the first entry with a given tag, if any.
pub fn value_more_readable_for_tag<'a>(tag: ExifTag, entries: &'a Vec<ExifEntry>) -> (r: Option<
    &'a String,
>)
    ensures
        r matches Some(s) ==> (spec_entry_for_tag(tag, entries.deep_view()) matches Some(e) && s@
            == e.value_more_readable),
        r is None ==> spec_entry_for_tag(tag, entries.deep_view()) is None,
{
    match entry_for_tag(tag, entries) {
        Some(entry) => Some(&entry.value_more_readable),
        None => None,
    }
}

/// A readable string with the sibling's readable text appended after the
/// join text, when the sibling exists; unchanged otherwise.
pub open spec fn spec_appended(
    readable: Seq<char>,
    entries: Seq<ExifEntryV>,
    tag: ExifTag,
    join_text: Seq<char>,
) -> Seq<char> {
    match spec_entry_for_tag(tag, entries) {
        None => readable,
        Some(o) => readable + join_text + o.value_more_readable,
    }
}

/// Append a sibling tag's readable text to a readable string.
fn postprocess_entry(
    value_more_readable: &mut String,
    entries: &Vec<ExifEntry>,
    tag: ExifTag,
    join_text: &str,
)
    ensures
        final(value_more_readable)@ == spec_appended(
            old(value_more_readable)@,
            entries.deep_view(),
            tag,
            join_text@,
        ),
{
    if let Some(other_value_more_readable) = value_more_readable_for_tag(tag, entries) {
        let other = other_value_more_readable.clone();
        value_more_readable.append(join_text);
        value_more_readable.append(other.as_str());
    }
}

/// The entry after cross-tag postprocessing against the full entry list.
/// Resolution values gain ` pixels per ` and their unit tag's text; GPS
/// coordinates and the destination distance and speed gain their
/// reference tag's text after a space; the GPS altitude gains ` below
/// sea level` exactly when the altitude reference entry holds a nonzero
/// first byte (above sea level is the unspoken default).  Every other
/// entry is unchanged.
pub open spec fn spec_postprocess(e: ExifEntryV, entries: Seq<ExifEntryV>) -> ExifEntryV {
    match e.tag {
        IfdTag::Exif(t) => {
            if t == ExifTag::XResolution || t == ExifTag::YResolution {
                ExifEntryV {
                    value_more_readable: spec_appended(
                        e.value_more_readable,
                        entries,
                        ExifTag::ResolutionUnit,
                        " pixels per "@,
                    ),
                    ..e
                }
            } else if t == ExifTag::FocalPlaneXResolution || t == ExifTag::FocalPlaneYResolution {
                ExifEntryV {
                    value_more_readable: spec_appended(
                        e.value_more_readable,
                        entries,
                        ExifTag::FocalPlaneResolutionUnit,
                        " pixels per "@,
                    ),
                    ..e
                }
            } else if t == ExifTag::GPSLatitude {
                ExifEntryV {
                    value_more_readable: spec_appended(
                        e.value_more_readable,
                        entries,
                        ExifTag::GPSLatitudeRef,
                        " "@,
                    ),
                    ..e
                }
            } else if t == ExifTag::GPSLongitude {
                ExifEntryV {
                    value_more_readable: spec_appended(
                        e.value_more_readable,
                        entries,
                        ExifTag::GPSLongitudeRef,
                        " "@,
                    ),
                    ..e
                }
            } else if t == ExifTag::GPSAltitude {
                if spec_entry_for_tag(ExifTag::GPSAltitudeRef, entries) matches Some(f)
                    && f.value matches TagValueV::U8(a) && a.len() >= 1 && a[0] != 0 {
                    ExifEntryV {
                        value_more_readable: e.value_more_readable + " below sea level"@,
                        ..e
                    }
                } else {
                    e
                }
            } else if t == ExifTag::GPSDestLatitude {
                ExifEntryV {
                    value_more_readable: spec_appended(
                        e.value_more_readable,
                        entries,
                        ExifTag::GPSDestLatitudeRef,
                        " "@,
                    ),
                    ..e
                }
            } else if t == ExifTag::GPSDestLongitude {
                ExifEntryV {
                    value_more_readable: spec_appended(
                        e.value_more_readable,
                        entries,
                        ExifTag::GPSDestLongitudeRef,
                        " "@,
                    ),
                    ..e
                }
            } else if t == ExifTag::GPSDestDistance {
                ExifEntryV {
                    value_more_readable: spec_appended(
                        e.value_more_readable,
                        entries,
                        ExifTag::GPSDestDistanceRef,
                        " "@,
                    ),
                    ..e
                }
            } else if t == ExifTag::GPSSpeed {
                ExifEntryV {
                    value_more_readable: spec_appended(
                        e.value_more_readable,
                        entries,
                        ExifTag::GPSSpeedRef,
                        " "@,
                    ),
                    ..e
                }
            } else {
                e
            }
        },
        IfdTag::Unknown(_) => e,
    }
}

/// Postprocess one entry against the full entry list, as
/// `spec_postprocess`.
pub fn exif_postprocessing(entry: &mut ExifEntry, entries: &Vec<ExifEntry>)
    ensures
        final(entry)@ == spec_postprocess(old(entry)@, entries.deep_view()),
{
    if let IfdTag::Exif(exif_tag) = entry.tag {
        match exif_tag {
            ExifTag::XResolution | ExifTag::YResolution => postprocess_entry(
                &mut entry.value_more_readable,
                entries,
                ExifTag::ResolutionUnit,
                " pixels per ",
            ),
            ExifTag::FocalPlaneXResolution | ExifTag::FocalPlaneYResolution => postprocess_entry(
                &mut entry.value_more_readable,
                entries,
                ExifTag::FocalPlaneResolutionUnit,
                " pixels per ",
            ),
            ExifTag::GPSLatitude => postprocess_entry(
                &mut entry.value_more_readable,
                entries,
                ExifTag::GPSLatitudeRef,
                " ",
            ),
            ExifTag::GPSLongitude => postprocess_entry(
                &mut entry.value_more_readable,
                entries,
                ExifTag::GPSLongitudeRef,
                " ",
            ),
            ExifTag::GPSAltitude => {
                if let Some(f) = entry_for_tag(ExifTag::GPSAltitudeRef, entries) {
                    if let crate::types::TagValue::U8(fv) = &f.value {
                        if fv.len() >= 1 && fv[0] != 0 {
                            entry.value_more_readable.append(" below sea level");
                        }
                    }
                }
            },
            ExifTag::GPSDestLatitude => postprocess_entry(
                &mut entry.value_more_readable,
                entries,
                ExifTag::GPSDestLatitudeRef,
                " ",
            ),
            ExifTag::GPSDestLongitude => postprocess_entry(
                &mut entry.value_more_readable,
                entries,
                ExifTag::GPSDestLongitudeRef,
                " ",
            ),
            ExifTag::GPSDestDistance => postprocess_entry(
                &mut entry.value_more_readable,
                entries,
                ExifTag::GPSDestDistanceRef,
                " ",
            ),
            ExifTag::GPSSpeed => postprocess_entry(
                &mut entry.value_more_readable,
                entries,
                ExifTag::GPSSpeedRef,
                " ",
            ),
            _ => (),
        }
    }
}

} // verus!
