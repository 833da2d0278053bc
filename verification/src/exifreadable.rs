//! Value renderers: one pure function per semantically distinct tag
//! family, each turning a decoded value into a human-readable string.
//!
//! Every renderer requires the value variant (and the element count) its
//! registered format guarantees, and pins its output with an exact
//! contract.  Decimal places come from exact rational arithmetic as the
//! `numfmt` module describes.

use crate::ifdformat::numarray_to_string;
use crate::ifdformat::spec_join_csv;
use crate::lowlevel::read_u16_array;
use crate::lowlevel::spec_read_u16_array;
use crate::numfmt::dec_u128;
use crate::numfmt::fixed_i64;
use crate::numfmt::fixed_u128;
use crate::numfmt::fixed_u32;
use crate::numfmt::lemma_round_he_scale;
use crate::numfmt::ratio_i64;
use crate::numfmt::ratio_u64;
use crate::numfmt::render_scaled;
use crate::numfmt::round_he_u128;
use crate::numfmt::spec_ifixed;
use crate::numfmt::spec_iratio;
use crate::numfmt::spec_pow10;
use crate::numfmt::spec_udec;
use crate::numfmt::spec_ufixed;
use crate::numfmt::spec_uratio;
use crate::numfmt::spec_zero_pad;
use crate::numfmt::zero_pad;
use crate::rational::spec_urational_str;
use crate::rational::IRational;
use crate::rational::URational;
use crate::textenc::utf16_lossy;
use crate::textenc::utf16_lossy_of;
use crate::textenc::utf8_lossy;
use crate::textenc::utf8_lossy_of;
use crate::to_csv::spec_csv_u16;
use crate::to_csv::ToCsv;
use crate::to_csv::spec_csv_u8;
use crate::types::TagValue;
use crate::types::TagValueV;
use crate::types_impl::spec_tag_value_display;
use vstd::pervasive::unreached;
use vstd::prelude::*;
use vstd::slice::slice_subrange;
use vstd::string::*;

verus! {

/// Build `Unknown (<n>)`.
fn unknown_paren_u16(n: u16) -> (s: String)
    ensures
        s@ == "Unknown ("@ + spec_udec(n as nat) + ")"@,
{
    let mut s = String::from_str("Unknown (");
    let d = dec_u128(n as u128);
    s.append(d.as_str());
    s.append(")");
    s
}

/// Build `Unknown (<text>)`.
fn unknown_paren_str(t: &str) -> (s: String)
    ensures
        s@ == "Unknown ("@ + t@ + ")"@,
{
    let mut s = String::from_str("Unknown (");
    s.append(t);
    s.append(")");
    s
}

/// The value rendered in its plain readable form, unchanged.  Used for
/// text tags and wherever the default representation is already readable.
pub open spec fn spec_strpass(v: TagValueV) -> Seq<char> {
    spec_tag_value_display(v)
}

/// Pass the value through in its plain readable form.
pub fn strpass(e: &TagValue) -> (s: String)
    ensures
        s@ == spec_strpass(e@),
{
    e.display_string()
}

/// Readable form of a rational array: the exact decimal value of each
/// element, joined by `, `.
pub open spec fn spec_rational_value(v: TagValueV) -> Seq<char> {
    match v {
        TagValueV::URational(a) => spec_join_csv(
            a.map_values(|x: URational| spec_uratio(x.numerator as nat, x.denominator as nat)),
        ),
        TagValueV::IRational(a) => spec_join_csv(
            a.map_values(|x: IRational| spec_iratio(x.numerator as int, x.denominator as int)),
        ),
        _ => Seq::empty(),
    }
}

/// Render a rational array as the decimal values of its elements.
pub fn rational_value(e: &TagValue) -> (s: String)
    requires
        e@ is URational || e@ is IRational,
    ensures
        s@ == spec_rational_value(e@),
{
    match e {
        TagValue::URational(v) => {
            let mut items: Vec<String> = Vec::new();
            let mut i: usize = 0;
            while i < v.len()
                invariant
                    i <= v@.len(),
                    items@.len() == i,
                    forall|j: int|
                        0 <= j < i ==> #[trigger] items@[j]@ == {
                            let x: URational = v@[j];
                            spec_uratio(x.numerator as nat, x.denominator as nat)
                        },
                decreases v@.len() - i,
            {
                let x: URational = v[i];
                items.push(ratio_u64(x.numerator as u64, x.denominator as u64));
                i = i + 1;
            }
            proof {
                assert(items.deep_view() =~~= v@.map_values(
                    |x: URational| spec_uratio(x.numerator as nat, x.denominator as nat),
                ));
            }
            numarray_to_string(&items)
        },
        TagValue::IRational(v) => {
            let mut items: Vec<String> = Vec::new();
            let mut i: usize = 0;
            while i < v.len()
                invariant
                    i <= v@.len(),
                    items@.len() == i,
                    forall|j: int|
                        0 <= j < i ==> #[trigger] items@[j]@ == {
                            let x: IRational = v@[j];
                            spec_iratio(x.numerator as int, x.denominator as int)
                        },
                decreases v@.len() - i,
            {
                let x: IRational = v[i];
                items.push(ratio_i64(x.numerator as i64, x.denominator as i64));
                i = i + 1;
            }
            proof {
                assert(items.deep_view() =~~= v@.map_values(
                    |x: IRational| spec_iratio(x.numerator as int, x.denominator as int),
                ));
            }
            numarray_to_string(&items)
        },
        _ => unreached(),
    }
}

/// Readable form of an exposure time.  A numerator of one over a larger
/// denominator shows as the raw fraction; otherwise a value below one
/// tenth shows as one over the reciprocal with no decimals, a value below
/// one as one over the reciprocal with one decimal, and anything else as
/// the value itself with one decimal.
pub open spec fn spec_exposure_time(v: TagValueV) -> Seq<char> {
    match v {
        TagValueV::URational(a) => {
            if a.len() == 0 {
                Seq::empty()
            } else {
                let n = a[0].numerator;
                let d = a[0].denominator;
                if n == 1 && d > 1 {
                    spec_urational_str(n as nat, d as nat) + " s"@
                } else if d > 0 && 10 * n < d {
                    "1/"@ + spec_ufixed(d as nat, n as nat, 0) + " s"@
                } else if d > 0 && n < d {
                    "1/"@ + spec_ufixed(d as nat, n as nat, 1) + " s"@
                } else {
                    spec_ufixed(n as nat, d as nat, 1) + " s"@
                }
            }
        },
        _ => Seq::empty(),
    }
}

/// Render an exposure time, as `spec_exposure_time`.
pub fn exposure_time(e: &TagValue) -> (s: String)
    requires
        e@ is URational,
        e@->URational_0.len() >= 1,
    ensures
        s@ == spec_exposure_time(e@),
{
    if let TagValue::URational(v) = e {
        let r: URational = v[0];
        let n: u64 = r.numerator as u64;
        let d: u64 = r.denominator as u64;
        if n == 1 && d > 1 {
            let mut s = r.display();
            s.append(" s");
            s
        } else if d > 0 && 10 * n < d {
            let mut s = String::from_str("1/");
            let f = fixed_u32(r.denominator, r.numerator, 0);
            s.append(f.as_str());
            s.append(" s");
            s
        } else if d > 0 && n < d {
            let mut s = String::from_str("1/");
            let f = fixed_u32(r.denominator, r.numerator, 1);
            s.append(f.as_str());
            s.append(" s");
            s
        } else {
            let mut s = fixed_u32(r.numerator, r.denominator, 1);
            s.append(" s");
            s
        }
    } else {
        unreached()
    }
}

/// Readable form of an aperture: `f/` and the value with one decimal.
pub open spec fn spec_f_number(v: TagValueV) -> Seq<char> {
    match v {
        TagValueV::URational(a) => {
            if a.len() == 0 {
                Seq::empty()
            } else {
                "f/"@ + spec_ufixed(a[0].numerator as nat, a[0].denominator as nat, 1)
            }
        },
        _ => Seq::empty(),
    }
}

/// Render an aperture f-number.
pub fn f_number(e: &TagValue) -> (s: String)
    requires
        e@ is URational,
        e@->URational_0.len() >= 1,
    ensures
        s@ == spec_f_number(e@),
{
    if let TagValue::URational(v) = e {
        let r: URational = v[0];
        let mut s = String::from_str("f/");
        let f = fixed_u32(r.numerator, r.denominator, 1);
        s.append(f.as_str());
        s
    } else {
        unreached()
    }
}

/// Readable form of a focal length: the exact decimal value and ` mm`.
pub open spec fn spec_focal_length(v: TagValueV) -> Seq<char> {
    match v {
        TagValueV::URational(a) => {
            if a.len() == 0 {
                Seq::empty()
            } else {
                spec_uratio(a[0].numerator as nat, a[0].denominator as nat) + " mm"@
            }
        },
        _ => Seq::empty(),
    }
}

/// Render a focal length in millimeters.
pub fn focal_length(e: &TagValue) -> (s: String)
    requires
        e@ is URational,
        e@->URational_0.len() >= 1,
    ensures
        s@ == spec_focal_length(e@),
{
    if let TagValue::URational(v) = e {
        let r: URational = v[0];
        let mut s = ratio_u64(r.numerator as u64, r.denominator as u64);
        s.append(" mm");
        s
    } else {
        unreached()
    }
}

/// Readable form of a 35mm-equivalent focal length: the integer and ` mm`.
pub open spec fn spec_focal_length_35(v: TagValueV) -> Seq<char> {
    match v {
        TagValueV::U16(a) => {
            if a.len() == 0 {
                Seq::empty()
            } else {
                spec_udec(a[0] as nat) + " mm"@
            }
        },
        _ => Seq::empty(),
    }
}

/// Render a 35mm-equivalent focal length.
pub fn focal_length_35(e: &TagValue) -> (s: String)
    requires
        e@ is U16,
        e@->U16_0.len() >= 1,
    ensures
        s@ == spec_focal_length_35(e@),
{
    if let TagValue::U16(v) = e {
        let mut s = dec_u128(v[0] as u128);
        s.append(" mm");
        s
    } else {
        unreached()
    }
}

/// Readable form of a distance: the value with one decimal and ` m`.
pub open spec fn spec_meters(v: TagValueV) -> Seq<char> {
    match v {
        TagValueV::URational(a) => {
            if a.len() == 0 {
                Seq::empty()
            } else {
                spec_ufixed(a[0].numerator as nat, a[0].denominator as nat, 1) + " m"@
            }
        },
        _ => Seq::empty(),
    }
}

/// Render a distance in meters.
pub fn meters(e: &TagValue) -> (s: String)
    requires
        e@ is URational,
        e@->URational_0.len() >= 1,
    ensures
        s@ == spec_meters(e@),
{
    if let TagValue::URational(v) = e {
        let r: URational = v[0];
        let mut s = fixed_u32(r.numerator, r.denominator, 1);
        s.append(" m");
        s
    } else {
        unreached()
    }
}

/// Readable form of ISO speed ratings: `ISO <n>` for a single element,
/// `ISO <n> latitude <m>` for two or three, and the joined list otherwise.
pub open spec fn spec_iso_speeds(v: TagValueV) -> Seq<char> {
    match v {
        TagValueV::U16(a) => {
            if a.len() == 1 {
                "ISO "@ + spec_udec(a[0] as nat)
            } else if a.len() == 2 || a.len() == 3 {
                "ISO "@ + spec_udec(a[0] as nat) + " latitude "@ + spec_udec(a[1] as nat)
            } else {
                "Unknown ("@ + spec_csv_u16(a) + ")"@
            }
        },
        _ => Seq::empty(),
    }
}

/// Render ISO speed ratings.
pub fn iso_speeds(e: &TagValue) -> (s: String)
    requires
        e@ is U16,
    ensures
        s@ == spec_iso_speeds(e@),
{
    if let TagValue::U16(v) = e {
        if v.len() == 1 {
            let mut s = String::from_str("ISO ");
            let d = dec_u128(v[0] as u128);
            s.append(d.as_str());
            s
        } else if v.len() == 2 || v.len() == 3 {
            let mut s = String::from_str("ISO ");
            let d = dec_u128(v[0] as u128);
            s.append(d.as_str());
            s.append(" latitude ");
            let d1 = dec_u128(v[1] as u128);
            s.append(d1.as_str());
            s
        } else {
            let mut s = String::from_str("Unknown (");
            let c = v.to_csv();
            s.append(c.as_str());
            s.append(")");
            s
        }
    } else {
        unreached()
    }
}

/// Readable form of a GPS coordinate triplet [degrees, minutes, seconds].
/// When degrees and minutes are exact integers, each shows in its own
/// place with the seconds to two decimals; when only the degrees are
/// exact, minutes and seconds collapse into fractional minutes to four
/// decimals; otherwise everything collapses into fractional degrees to
/// seven decimals.
pub open spec fn spec_dms(v: TagValueV) -> Seq<char> {
    match v {
        TagValueV::URational(a) => {
            if a.len() < 3 {
                Seq::empty()
            } else {
                let deg = a[0];
                let min = a[1];
                let sec = a[2];
                if deg.denominator == 1 && min.denominator == 1 {
                    spec_udec(deg.numerator as nat) + "\u{b0}"@ + spec_udec(min.numerator as nat)
                        + "'"@ + spec_ufixed(sec.numerator as nat, sec.denominator as nat, 2)
                        + "\""@
                } else if deg.denominator == 1 {
                    spec_udec(deg.numerator as nat) + "\u{b0}"@ + spec_ufixed(
                        (min.numerator as nat) * (sec.denominator as nat) * 60 + (
                        sec.numerator as nat) * (min.denominator as nat),
                        (min.denominator as nat) * (sec.denominator as nat) * 60,
                        4,
                    ) + "'"@
                } else {
                    spec_ufixed(
                        3600 * (deg.numerator as nat) * (min.denominator as nat) * (
                        sec.denominator as nat) + 60 * (min.numerator as nat) * (
                        deg.denominator as nat) * (sec.denominator as nat) + (sec.numerator as nat)
                            * (deg.denominator as nat) * (min.denominator as nat),
                        3600 * (deg.denominator as nat) * (min.denominator as nat) * (
                        sec.denominator as nat),
                        7,
                    ) + "\u{b0}"@
                }
            }
        },
        _ => Seq::empty(),
    }
}

/// Render a GPS degrees/minutes/seconds triplet, as `spec_dms`.
pub fn dms(e: &TagValue) -> (s: String)
    requires
        e@ is URational,
        e@->URational_0.len() >= 3,
    ensures
        s@ == spec_dms(e@),
{
    if let TagValue::URational(v) = e {
        let deg: URational = v[0];
        let min: URational = v[1];
        let sec: URational = v[2];
        if deg.denominator == 1 && min.denominator == 1 {
            let mut s = dec_u128(deg.numerator as u128);
            s.append("\u{b0}");
            let m = dec_u128(min.numerator as u128);
            s.append(m.as_str());
            s.append("'");
            let f = fixed_u32(sec.numerator, sec.denominator, 2);
            s.append(f.as_str());
            s.append("\"");
            s
        } else if deg.denominator == 1 {
            let mn: u128 = min.numerator as u128;
            let md: u128 = min.denominator as u128;
            let sn: u128 = sec.numerator as u128;
            let sd: u128 = sec.denominator as u128;
            proof {
                assert((mn as nat) * (sd as nat) <= 0xffff_ffff * 0xffff_ffff && (sn as nat) * (
                md as nat) <= 0xffff_ffff * 0xffff_ffff && (md as nat) * (sd as nat) <= 0xffff_ffff
                    * 0xffff_ffff) by (nonlinear_arith)
                    requires
                        mn <= 0xffff_ffffu128,
                        md <= 0xffff_ffffu128,
                        sn <= 0xffff_ffffu128,
                        sd <= 0xffff_ffffu128,
                ;
                reveal_with_fuel(spec_pow10, 11);
                assert((mn * sd * 60 + sn * md) as nat * spec_pow10(4) < u128::MAX)
                    by (nonlinear_arith)
                    requires
                        mn * sd <= 0xffff_ffffu128 * 0xffff_ffffu128,
                        sn * md <= 0xffff_ffffu128 * 0xffff_ffffu128,
                        spec_pow10(4) == 10000,
                ;
            }
            let num: u128 = mn * sd * 60 + sn * md;
            let den: u128 = md * sd * 60;
            let mut s = dec_u128(deg.numerator as u128);
            s.append("\u{b0}");
            let f = fixed_u128(num, den, 4);
            s.append(f.as_str());
            s.append("'");
            s
        } else {
            let dn: u128 = deg.numerator as u128;
            let dd: u128 = deg.denominator as u128;
            let mn: u128 = min.numerator as u128;
            let md: u128 = min.denominator as u128;
            let sn: u128 = sec.numerator as u128;
            let sd: u128 = sec.denominator as u128;
            proof {
                let m: nat = 0xffff_ffff;
                assert((dn as nat) * (md as nat) <= m * m && (dn as nat) * (md as nat) * (
                sd as nat) <= m * m * m && (mn as nat) * (dd as nat) <= m * m && (mn as nat) * (
                dd as nat) * (sd as nat) <= m * m * m && (sn as nat) * (dd as nat) <= m * m && (
                sn as nat) * (dd as nat) * (md as nat) <= m * m * m && (dd as nat) * (md as nat)
                    <= m * m && (dd as nat) * (md as nat) * (sd as nat) <= m * m * m)
                    by (nonlinear_arith)
                    requires
                        m == 0xffff_ffff,
                        dn <= 0xffff_ffffu128,
                        dd <= 0xffff_ffffu128,
                        mn <= 0xffff_ffffu128,
                        md <= 0xffff_ffffu128,
                        sn <= 0xffff_ffffu128,
                        sd <= 0xffff_ffffu128,
                ;
            }
            let num: u128 = 3600 * (dn * md * sd) + 60 * (mn * dd * sd) + sn * dd * md;
            let den9: u128 = 9 * (dd * md * sd);
            proof {
                assert((num as nat) == 3600 * (dn as nat) * (md as nat) * (sd as nat) + 60 * (
                mn as nat) * (dd as nat) * (sd as nat) + (sn as nat) * (dd as nat) * (md as nat)
                    && (den9 as nat) * 400 == 3600 * (dd as nat) * (md as nat) * (sd as nat))
                    by (nonlinear_arith)
                    requires
                        num == 3600 * (dn * md * sd) + 60 * (mn * dd * sd) + sn * dd * md,
                        den9 == 9 * (dd * md * sd),
                ;
            }
            let mut s: String;
            if den9 == 0 {
                if num == 0 {
                    s = String::from_str("NaN");
                } else {
                    s = String::from_str("inf");
                }
                proof {
                    assert(3600 * (dd as nat) * (md as nat) * (sd as nat) == 0) by (nonlinear_arith)
                        requires
                            9 * ((dd as nat) * (md as nat) * (sd as nat)) == 0,
                    ;
                }
            } else {
                let num25: u128 = num * 25000;
                let scaled: u128 = round_he_u128(num25, den9);
                proof {
                    reveal_with_fuel(spec_pow10, 11);
                    lemma_round_he_scale(400, num25 as nat, den9 as nat);
                    assert(400 * (num25 as nat) == (num as nat) * spec_pow10(7)
                        && 400 * (den9 as nat) == 3600 * (dd as nat) * (md as nat) * (sd as nat))
                        by (nonlinear_arith)
                        requires
                            num25 == num * 25000,
                            den9 == 9 * ((dd as u128) * (md as u128) * (sd as u128)),
                            spec_pow10(7) == 10000000,
                    ;
                }
                s = render_scaled(scaled, 7);
            }
            s.append("\u{b0}");
            s
        }
    } else {
        unreached()
    }
}


/// Readable form of a GPS timestamp: zero-padded hours, minutes and
/// seconds (one decimal) joined by colons, and ` UTC`.
pub open spec fn spec_gpstimestamp(v: TagValueV) -> Seq<char> {
    match v {
        TagValueV::URational(a) => {
            if a.len() < 3 {
                Seq::empty()
            } else {
                spec_zero_pad(spec_ufixed(a[0].numerator as nat, a[0].denominator as nat, 0), 2)
                    + ":"@ + spec_zero_pad(
                    spec_ufixed(a[1].numerator as nat, a[1].denominator as nat, 0),
                    2,
                ) + ":"@ + spec_zero_pad(
                    spec_ufixed(a[2].numerator as nat, a[2].denominator as nat, 1),
                    4,
                ) + " UTC"@
            }
        },
        _ => Seq::empty(),
    }
}

/// Render a GPS timestamp.
pub fn gpstimestamp(e: &TagValue) -> (s: String)
    requires
        e@ is URational,
        e@->URational_0.len() >= 3,
    ensures
        s@ == spec_gpstimestamp(e@),
{
    if let TagValue::URational(v) = e {
        let hour: URational = v[0];
        let min: URational = v[1];
        let sec: URational = v[2];
        let mut s = zero_pad(fixed_u32(hour.numerator, hour.denominator, 0), 2);
        s.append(":");
        let m = zero_pad(fixed_u32(min.numerator, min.denominator, 0), 2);
        s.append(m.as_str());
        s.append(":");
        let c = zero_pad(fixed_u32(sec.numerator, sec.denominator, 1), 4);
        s.append(c.as_str());
        s.append(" UTC");
        s
    } else {
        unreached()
    }
}

/// Readable form of the GPS altitude reference byte.
pub open spec fn spec_gps_alt_ref(v: TagValueV) -> Seq<char> {
    match v {
        TagValueV::U8(a) => {
            if a.len() == 0 {
                Seq::empty()
            } else if a[0] == 0 {
                "Above sea level"@
            } else if a[0] == 1 {
                "Below sea level"@
            } else {
                "Unknown, assumed below sea level ("@ + spec_udec(a[0] as nat) + ")"@
            }
        },
        _ => Seq::empty(),
    }
}

/// Render the GPS altitude reference.
pub fn gps_alt_ref(e: &TagValue) -> (s: String)
    requires
        e@ is U8,
        e@->U8_0.len() >= 1,
    ensures
        s@ == spec_gps_alt_ref(e@),
{
    if let TagValue::U8(v) = e {
        let n: u8 = v[0];
        if n == 0 {
            String::from_str("Above sea level")
        } else if n == 1 {
            String::from_str("Below sea level")
        } else {
            let mut s = String::from_str("Unknown, assumed below sea level (");
            let d = dec_u128(n as u128);
            s.append(d.as_str());
            s.append(")");
            s
        }
    } else {
        unreached()
    }
}

/// Readable form of a GPS destination distance: three decimals.
pub open spec fn spec_gpsdestdistance(v: TagValueV) -> Seq<char> {
    match v {
        TagValueV::URational(a) => {
            if a.len() == 0 {
                Seq::empty()
            } else {
                spec_ufixed(a[0].numerator as nat, a[0].denominator as nat, 3)
            }
        },
        _ => Seq::empty(),
    }
}

/// Render a GPS destination distance.
pub fn gpsdestdistance(e: &TagValue) -> (s: String)
    requires
        e@ is URational,
        e@->URational_0.len() >= 1,
    ensures
        s@ == spec_gpsdestdistance(e@),
{
    if let TagValue::URational(v) = e {
        let r: URational = v[0];
        fixed_u32(r.numerator, r.denominator, 3)
    } else {
        unreached()
    }
}

/// Readable form of a GPS speed: one decimal.
pub open spec fn spec_gpsspeed(v: TagValueV) -> Seq<char> {
    match v {
        TagValueV::URational(a) => {
            if a.len() == 0 {
                Seq::empty()
            } else {
                spec_ufixed(a[0].numerator as nat, a[0].denominator as nat, 1)
            }
        },
        _ => Seq::empty(),
    }
}

/// Render a GPS speed.
pub fn gpsspeed(e: &TagValue) -> (s: String)
    requires
        e@ is URational,
        e@->URational_0.len() >= 1,
    ensures
        s@ == spec_gpsspeed(e@),
{
    if let TagValue::URational(v) = e {
        let r: URational = v[0];
        fixed_u32(r.numerator, r.denominator, 1)
    } else {
        unreached()
    }
}

/// Readable form of a bearing: two decimals and a degree sign.
pub open spec fn spec_gpsbearing(v: TagValueV) -> Seq<char> {
    match v {
        TagValueV::URational(a) => {
            if a.len() == 0 {
                Seq::empty()
            } else {
                spec_ufixed(a[0].numerator as nat, a[0].denominator as nat, 2) + "\u{b0}"@
            }
        },
        _ => Seq::empty(),
    }
}

/// Render a bearing in degrees.
pub fn gpsbearing(e: &TagValue) -> (s: String)
    requires
        e@ is URational,
        e@->URational_0.len() >= 1,
    ensures
        s@ == spec_gpsbearing(e@),
{
    if let TagValue::URational(v) = e {
        let r: URational = v[0];
        let mut s = fixed_u32(r.numerator, r.denominator, 2);
        s.append("\u{b0}");
        s
    } else {
        unreached()
    }
}

/// Readable form of an APEX shutter speed: one decimal and ` Tv APEX`.
pub open spec fn spec_apex_tv(v: TagValueV) -> Seq<char> {
    match v {
        TagValueV::IRational(a) => {
            if a.len() == 0 {
                Seq::empty()
            } else {
                spec_ifixed(a[0].numerator as int, a[0].denominator as int, 1) + " Tv APEX"@
            }
        },
        _ => Seq::empty(),
    }
}

/// Render an APEX shutter speed.
pub fn apex_tv(e: &TagValue) -> (s: String)
    requires
        e@ is IRational,
        e@->IRational_0.len() >= 1,
    ensures
        s@ == spec_apex_tv(e@),
{
    if let TagValue::IRational(v) = e {
        let r: IRational = v[0];
        let mut s = fixed_i64(r.numerator as i64, r.denominator as i64, 1);
        s.append(" Tv APEX");
        s
    } else {
        unreached()
    }
}

/// Readable form of an APEX aperture: one decimal and ` Av APEX`.
pub open spec fn spec_apex_av(v: TagValueV) -> Seq<char> {
    match v {
        TagValueV::URational(a) => {
            if a.len() == 0 {
                Seq::empty()
            } else {
                spec_ufixed(a[0].numerator as nat, a[0].denominator as nat, 1) + " Av APEX"@
            }
        },
        _ => Seq::empty(),
    }
}

/// Render an APEX aperture.
pub fn apex_av(e: &TagValue) -> (s: String)
    requires
        e@ is URational,
        e@->URational_0.len() >= 1,
    ensures
        s@ == spec_apex_av(e@),
{
    if let TagValue::URational(v) = e {
        let r: URational = v[0];
        let mut s = fixed_u32(r.numerator, r.denominator, 1);
        s.append(" Av APEX");
        s
    } else {
        unreached()
    }
}

/// Readable form of an APEX brightness: `Unknown` for the all-ones
/// sentinel numerator, otherwise one decimal and ` APEX`.
pub open spec fn spec_apex_brightness(v: TagValueV) -> Seq<char> {
    match v {
        TagValueV::IRational(a) => {
            if a.len() == 0 {
                Seq::empty()
            } else if a[0].numerator == -1 {
                "Unknown"@
            } else {
                spec_ifixed(a[0].numerator as int, a[0].denominator as int, 1) + " APEX"@
            }
        },
        _ => Seq::empty(),
    }
}

/// Render an APEX brightness.
pub fn apex_brightness(e: &TagValue) -> (s: String)
    requires
        e@ is IRational,
        e@->IRational_0.len() >= 1,
    ensures
        s@ == spec_apex_brightness(e@),
{
    if let TagValue::IRational(v) = e {
        let r: IRational = v[0];
        if r.numerator == -1 {
            String::from_str("Unknown")
        } else {
            let mut s = fixed_i64(r.numerator as i64, r.denominator as i64, 1);
            s.append(" APEX");
            s
        }
    } else {
        unreached()
    }
}

/// Readable form of an APEX exposure bias: two decimals and ` EV APEX`.
pub open spec fn spec_apex_ev(v: TagValueV) -> Seq<char> {
    match v {
        TagValueV::IRational(a) => {
            if a.len() == 0 {
                Seq::empty()
            } else {
                spec_ifixed(a[0].numerator as int, a[0].denominator as int, 2) + " EV APEX"@
            }
        },
        _ => Seq::empty(),
    }
}

/// Render an APEX exposure bias.
pub fn apex_ev(e: &TagValue) -> (s: String)
    requires
        e@ is IRational,
        e@->IRational_0.len() >= 1,
    ensures
        s@ == spec_apex_ev(e@),
{
    if let TagValue::IRational(v) = e {
        let r: IRational = v[0];
        let mut s = fixed_i64(r.numerator as i64, r.denominator as i64, 2);
        s.append(" EV APEX");
        s
    } else {
        unreached()
    }
}

/// Readable form of the file source byte: `DSC` for a digital still
/// camera, `Unknown` otherwise.
pub open spec fn spec_file_source(v: TagValueV) -> Seq<char> {
    match v {
        TagValueV::Undefined(a, _) => {
            if a.len() > 0 && a[0] == 3 {
                "DSC"@
            } else {
                "Unknown"@
            }
        },
        _ => Seq::empty(),
    }
}

/// Render the file source.
pub fn file_source(e: &TagValue) -> (s: String)
    requires
        e@ is Undefined,
    ensures
        s@ == spec_file_source(e@),
{
    if let TagValue::Undefined(v, _le) = e {
        if v.len() > 0 && v[0] == 3 {
            String::from_str("DSC")
        } else {
            String::from_str("Unknown")
        }
    } else {
        unreached()
    }
}

/// Readable form of the scene type byte.
pub open spec fn spec_scene_type(v: TagValueV) -> Seq<char> {
    match v {
        TagValueV::Undefined(a, _) => {
            if a.len() == 0 {
                Seq::empty()
            } else if a[0] == 1 {
                "Directly photographed image"@
            } else {
                "Unknown ("@ + spec_udec(a[0] as nat) + ")"@
            }
        },
        _ => Seq::empty(),
    }
}

/// Render the scene type.
pub fn scene_type(e: &TagValue) -> (s: String)
    requires
        e@ is Undefined,
        e@->Undefined_0.len() >= 1,
    ensures
        s@ == spec_scene_type(e@),
{
    if let TagValue::Undefined(v, _le) = e {
        let n: u8 = v[0];
        if n == 1 {
            String::from_str("Directly photographed image")
        } else {
            let mut s = String::from_str("Unknown (");
            let d = dec_u128(n as u128);
            s.append(d.as_str());
            s.append(")");
            s
        }
    } else {
        unreached()
    }
}

/// Readable form of a flash energy: the exact decimal value and ` BCPS`.
pub open spec fn spec_flash_energy(v: TagValueV) -> Seq<char> {
    match v {
        TagValueV::URational(a) => {
            if a.len() == 0 {
                Seq::empty()
            } else {
                spec_uratio(a[0].numerator as nat, a[0].denominator as nat) + " BCPS"@
            }
        },
        _ => Seq::empty(),
    }
}

/// Render a flash energy.
pub fn flash_energy(e: &TagValue) -> (s: String)
    requires
        e@ is URational,
        e@->URational_0.len() >= 1,
    ensures
        s@ == spec_flash_energy(e@),
{
    if let TagValue::URational(v) = e {
        let r: URational = v[0];
        let mut s = ratio_u64(r.numerator as u64, r.denominator as u64);
        s.append(" BCPS");
        s
    } else {
        unreached()
    }
}

/// Readable form, by value code, of: The orientation of the image, from the rotation code.
pub open spec fn spec_orientation(v: TagValueV) -> Seq<char> {
    match v {
        TagValueV::U16(a) => {
            if a.len() == 0 {
                Seq::empty()
            } else if a[0] == 1 {
                "Straight"@
            } else if a[0] == 3 {
                "Upside down"@
            } else if a[0] == 6 {
                "Rotated to left"@
            } else if a[0] == 8 {
                "Rotated to right"@
            } else if a[0] == 9 {
                "Undefined"@
            } else {
                "Unknown ("@ + spec_udec(a[0] as nat) + ")"@
            }
        },
        _ => Seq::empty(),
    }
}

/// The orientation of the image, from the rotation code.
pub fn orientation(e: &TagValue) -> (s: String)
    requires
        e@ is U16,
        e@->U16_0.len() >= 1,
    ensures
        s@ == spec_orientation(e@),
{
    if let TagValue::U16(v) = e {
        let n: u16 = v[0];
        if n == 1 {
            String::from_str("Straight")
        } else if n == 3 {
            String::from_str("Upside down")
        } else if n == 6 {
            String::from_str("Rotated to left")
        } else if n == 8 {
            String::from_str("Rotated to right")
        } else if n == 9 {
            String::from_str("Undefined")
        } else {
            unknown_paren_u16(n)
        }
    } else {
        unreached()
    }
}

/// Readable form, by value code, of: The unit of a resolution tag.
pub open spec fn spec_resolution_unit(v: TagValueV) -> Seq<char> {
    match v {
        TagValueV::U16(a) => {
            if a.len() == 0 {
                Seq::empty()
            } else if a[0] == 1 {
                "Unitless"@
            } else if a[0] == 2 {
                "in"@
            } else if a[0] == 3 {
                "cm"@
            } else {
                "Unknown ("@ + spec_udec(a[0] as nat) + ")"@
            }
        },
        _ => Seq::empty(),
    }
}

/// The unit of a resolution tag.
pub fn resolution_unit(e: &TagValue) -> (s: String)
    requires
        e@ is U16,
        e@->U16_0.len() >= 1,
    ensures
        s@ == spec_resolution_unit(e@),
{
    if let TagValue::U16(v) = e {
        let n: u16 = v[0];
        if n == 1 {
            String::from_str("Unitless")
        } else if n == 2 {
            String::from_str("in")
        } else if n == 3 {
            String::from_str("cm")
        } else {
            unknown_paren_u16(n)
        }
    } else {
        unreached()
    }
}

/// Readable form, by value code, of: The exposure program in force.
pub open spec fn spec_exposure_program(v: TagValueV) -> Seq<char> {
    match v {
        TagValueV::U16(a) => {
            if a.len() == 0 {
                Seq::empty()
            } else if a[0] == 1 {
                "Manual control"@
            } else if a[0] == 2 {
                "Program control"@
            } else if a[0] == 3 {
                "Aperture priority"@
            } else if a[0] == 4 {
                "Shutter priority"@
            } else if a[0] == 5 {
                "Program creative (slow program)"@
            } else if a[0] == 6 {
                "Program creative (high-speed program)"@
            } else if a[0] == 7 {
                "Portrait mode"@
            } else if a[0] == 8 {
                "Landscape mode"@
            } else {
                "Unknown ("@ + spec_udec(a[0] as nat) + ")"@
            }
        },
        _ => Seq::empty(),
    }
}

/// The exposure program in force.
pub fn exposure_program(e: &TagValue) -> (s: String)
    requires
        e@ is U16,
        e@->U16_0.len() >= 1,
    ensures
        s@ == spec_exposure_program(e@),
{
    if let TagValue::U16(v) = e {
        let n: u16 = v[0];
        if n == 1 {
            String::from_str("Manual control")
        } else if n == 2 {
            String::from_str("Program control")
        } else if n == 3 {
            String::from_str("Aperture priority")
        } else if n == 4 {
            String::from_str("Shutter priority")
        } else if n == 5 {
            String::from_str("Program creative (slow program)")
        } else if n == 6 {
            String::from_str("Program creative (high-speed program)")
        } else if n == 7 {
            String::from_str("Portrait mode")
        } else if n == 8 {
            String::from_str("Landscape mode")
        } else {
            unknown_paren_u16(n)
        }
    } else {
        unreached()
    }
}

/// Readable form, by value code, of: The metering mode.
pub open spec fn spec_metering_mode(v: TagValueV) -> Seq<char> {
    match v {
        TagValueV::U16(a) => {
            if a.len() == 0 {
                Seq::empty()
            } else if a[0] == 0 {
                "Unknown"@
            } else if a[0] == 1 {
                "Average"@
            } else if a[0] == 2 {
                "Center-weighted average"@
            } else if a[0] == 3 {
                "Spot"@
            } else if a[0] == 4 {
                "Multi-spot"@
            } else if a[0] == 5 {
                "Pattern"@
            } else if a[0] == 6 {
                "Partial"@
            } else if a[0] == 255 {
                "Other"@
            } else {
                "Unknown ("@ + spec_udec(a[0] as nat) + ")"@
            }
        },
        _ => Seq::empty(),
    }
}

/// The metering mode.
pub fn metering_mode(e: &TagValue) -> (s: String)
    requires
        e@ is U16,
        e@->U16_0.len() >= 1,
    ensures
        s@ == spec_metering_mode(e@),
{
    if let TagValue::U16(v) = e {
        let n: u16 = v[0];
        if n == 0 {
            String::from_str("Unknown")
        } else if n == 1 {
            String::from_str("Average")
        } else if n == 2 {
            String::from_str("Center-weighted average")
        } else if n == 3 {
            String::from_str("Spot")
        } else if n == 4 {
            String::from_str("Multi-spot")
        } else if n == 5 {
            String::from_str("Pattern")
        } else if n == 6 {
            String::from_str("Partial")
        } else if n == 255 {
            String::from_str("Other")
        } else {
            unknown_paren_u16(n)
        }
    } else {
        unreached()
    }
}

/// Readable form, by value code, of: The light source.
pub open spec fn spec_light_source(v: TagValueV) -> Seq<char> {
    match v {
        TagValueV::U16(a) => {
            if a.len() == 0 {
                Seq::empty()
            } else if a[0] == 0 {
                "Unknown"@
            } else if a[0] == 1 {
                "Daylight"@
            } else if a[0] == 2 {
                "Fluorescent"@
            } else if a[0] == 3 {
                "Tungsten"@
            } else if a[0] == 4 {
                "Flash"@
            } else if a[0] == 9 {
                "Fine weather"@
            } else if a[0] == 10 {
                "Cloudy weather"@
            } else if a[0] == 11 {
                "Shade"@
            } else if a[0] == 12 {
                "Daylight fluorescent (D)"@
            } else if a[0] == 13 {
                "Day white fluorescent (N)"@
            } else if a[0] == 14 {
                "Cool white fluorescent (W)"@
            } else if a[0] == 15 {
                "White fluorescent (WW)"@
            } else if a[0] == 17 {
                "Standard light A"@
            } else if a[0] == 18 {
                "Standard light B"@
            } else if a[0] == 19 {
                "Standard light C"@
            } else if a[0] == 20 {
                "D55"@
            } else if a[0] == 21 {
                "D65"@
            } else if a[0] == 22 {
                "D75"@
            } else if a[0] == 23 {
                "D50"@
            } else if a[0] == 24 {
                "ISO studio tungsten"@
            } else if a[0] == 255 {
                "Other"@
            } else {
                "Unknown ("@ + spec_udec(a[0] as nat) + ")"@
            }
        },
        _ => Seq::empty(),
    }
}

/// The light source.
pub fn light_source(e: &TagValue) -> (s: String)
    requires
        e@ is U16,
        e@->U16_0.len() >= 1,
    ensures
        s@ == spec_light_source(e@),
{
    if let TagValue::U16(v) = e {
        let n: u16 = v[0];
        if n == 0 {
            String::from_str("Unknown")
        } else if n == 1 {
            String::from_str("Daylight")
        } else if n == 2 {
            String::from_str("Fluorescent")
        } else if n == 3 {
            String::from_str("Tungsten")
        } else if n == 4 {
            String::from_str("Flash")
        } else if n == 9 {
            String::from_str("Fine weather")
        } else if n == 10 {
            String::from_str("Cloudy weather")
        } else if n == 11 {
            String::from_str("Shade")
        } else if n == 12 {
            String::from_str("Daylight fluorescent (D)")
        } else if n == 13 {
            String::from_str("Day white fluorescent (N)")
        } else if n == 14 {
            String::from_str("Cool white fluorescent (W)")
        } else if n == 15 {
            String::from_str("White fluorescent (WW)")
        } else if n == 17 {
            String::from_str("Standard light A")
        } else if n == 18 {
            String::from_str("Standard light B")
        } else if n == 19 {
            String::from_str("Standard light C")
        } else if n == 20 {
            String::from_str("D55")
        } else if n == 21 {
            String::from_str("D65")
        } else if n == 22 {
            String::from_str("D75")
        } else if n == 23 {
            String::from_str("D50")
        } else if n == 24 {
            String::from_str("ISO studio tungsten")
        } else if n == 255 {
            String::from_str("Other")
        } else {
            unknown_paren_u16(n)
        }
    } else {
        unreached()
    }
}

/// Readable form, by value code, of: The color space.
pub open spec fn spec_color_space(v: TagValueV) -> Seq<char> {
    match v {
        TagValueV::U16(a) => {
            if a.len() == 0 {
                Seq::empty()
            } else if a[0] == 1 {
                "sRGB"@
            } else if a[0] == 65535 {
                "Uncalibrated"@
            } else {
                "Unknown ("@ + spec_udec(a[0] as nat) + ")"@
            }
        },
        _ => Seq::empty(),
    }
}

/// The color space.
pub fn color_space(e: &TagValue) -> (s: String)
    requires
        e@ is U16,
        e@->U16_0.len() >= 1,
    ensures
        s@ == spec_color_space(e@),
{
    if let TagValue::U16(v) = e {
        let n: u16 = v[0];
        if n == 1 {
            String::from_str("sRGB")
        } else if n == 65535 {
            String::from_str("Uncalibrated")
        } else {
            unknown_paren_u16(n)
        }
    } else {
        unreached()
    }
}

/// Readable form, by value code, of: The sharpness setting.
pub open spec fn spec_sharpness(v: TagValueV) -> Seq<char> {
    match v {
        TagValueV::U16(a) => {
            if a.len() == 0 {
                Seq::empty()
            } else if a[0] == 0 {
                "Normal"@
            } else if a[0] == 1 {
                "Soft"@
            } else if a[0] == 2 {
                "Hard"@
            } else {
                "Unknown ("@ + spec_udec(a[0] as nat) + ")"@
            }
        },
        _ => Seq::empty(),
    }
}

/// The sharpness setting.
pub fn sharpness(e: &TagValue) -> (s: String)
    requires
        e@ is U16,
        e@->U16_0.len() >= 1,
    ensures
        s@ == spec_sharpness(e@),
{
    if let TagValue::U16(v) = e {
        let n: u16 = v[0];
        if n == 0 {
            String::from_str("Normal")
        } else if n == 1 {
            String::from_str("Soft")
        } else if n == 2 {
            String::from_str("Hard")
        } else {
            unknown_paren_u16(n)
        }
    } else {
        unreached()
    }
}

/// Readable form, by value code, of: The saturation setting.
pub open spec fn spec_saturation(v: TagValueV) -> Seq<char> {
    match v {
        TagValueV::U16(a) => {
            if a.len() == 0 {
                Seq::empty()
            } else if a[0] == 0 {
                "Normal"@
            } else if a[0] == 1 {
                "Low"@
            } else if a[0] == 2 {
                "High"@
            } else {
                "Unknown ("@ + spec_udec(a[0] as nat) + ")"@
            }
        },
        _ => Seq::empty(),
    }
}

/// The saturation setting.
pub fn saturation(e: &TagValue) -> (s: String)
    requires
        e@ is U16,
        e@->U16_0.len() >= 1,
    ensures
        s@ == spec_saturation(e@),
{
    if let TagValue::U16(v) = e {
        let n: u16 = v[0];
        if n == 0 {
            String::from_str("Normal")
        } else if n == 1 {
            String::from_str("Low")
        } else if n == 2 {
            String::from_str("High")
        } else {
            unknown_paren_u16(n)
        }
    } else {
        unreached()
    }
}

/// Readable form, by value code, of: The contrast setting.
pub open spec fn spec_contrast(v: TagValueV) -> Seq<char> {
    match v {
        TagValueV::U16(a) => {
            if a.len() == 0 {
                Seq::empty()
            } else if a[0] == 0 {
                "Normal"@
            } else if a[0] == 1 {
                "Soft"@
            } else if a[0] == 2 {
                "Hard"@
            } else {
                "Unknown ("@ + spec_udec(a[0] as nat) + ")"@
            }
        },
        _ => Seq::empty(),
    }
}

/// The contrast setting.
pub fn contrast(e: &TagValue) -> (s: String)
    requires
        e@ is U16,
        e@->U16_0.len() >= 1,
    ensures
        s@ == spec_contrast(e@),
{
    if let TagValue::U16(v) = e {
        let n: u16 = v[0];
        if n == 0 {
            String::from_str("Normal")
        } else if n == 1 {
            String::from_str("Soft")
        } else if n == 2 {
            String::from_str("Hard")
        } else {
            unknown_paren_u16(n)
        }
    } else {
        unreached()
    }
}

/// Readable form, by value code, of: The gain control setting.
pub open spec fn spec_gain_control(v: TagValueV) -> Seq<char> {
    match v {
        TagValueV::U16(a) => {
            if a.len() == 0 {
                Seq::empty()
            } else if a[0] == 0 {
                "None"@
            } else if a[0] == 1 {
                "Low gain up"@
            } else if a[0] == 2 {
                "High gain up"@
            } else if a[0] == 3 {
                "Low gain down"@
            } else if a[0] == 4 {
                "High gain down"@
            } else {
                "Unknown ("@ + spec_udec(a[0] as nat) + ")"@
            }
        },
        _ => Seq::empty(),
    }
}

/// The gain control setting.
pub fn gain_control(e: &TagValue) -> (s: String)
    requires
        e@ is U16,
        e@->U16_0.len() >= 1,
    ensures
        s@ == spec_gain_control(e@),
{
    if let TagValue::U16(v) = e {
        let n: u16 = v[0];
        if n == 0 {
            String::from_str("None")
        } else if n == 1 {
            String::from_str("Low gain up")
        } else if n == 2 {
            String::from_str("High gain up")
        } else if n == 3 {
            String::from_str("Low gain down")
        } else if n == 4 {
            String::from_str("High gain down")
        } else {
            unknown_paren_u16(n)
        }
    } else {
        unreached()
    }
}

/// Readable form, by value code, of: The exposure mode.
pub open spec fn spec_exposure_mode(v: TagValueV) -> Seq<char> {
    match v {
        TagValueV::U16(a) => {
            if a.len() == 0 {
                Seq::empty()
            } else if a[0] == 0 {
                "Auto exposure"@
            } else if a[0] == 1 {
                "Manual exposure"@
            } else if a[0] == 2 {
                "Auto bracket"@
            } else {
                "Unknown ("@ + spec_udec(a[0] as nat) + ")"@
            }
        },
        _ => Seq::empty(),
    }
}

/// The exposure mode.
pub fn exposure_mode(e: &TagValue) -> (s: String)
    requires
        e@ is U16,
        e@->U16_0.len() >= 1,
    ensures
        s@ == spec_exposure_mode(e@),
{
    if let TagValue::U16(v) = e {
        let n: u16 = v[0];
        if n == 0 {
            String::from_str("Auto exposure")
        } else if n == 1 {
            String::from_str("Manual exposure")
        } else if n == 2 {
            String::from_str("Auto bracket")
        } else {
            unknown_paren_u16(n)
        }
    } else {
        unreached()
    }
}

/// Readable form, by value code, of: The scene capture type.
pub open spec fn spec_scene_capture_type(v: TagValueV) -> Seq<char> {
    match v {
        TagValueV::U16(a) => {
            if a.len() == 0 {
                Seq::empty()
            } else if a[0] == 0 {
                "Standard"@
            } else if a[0] == 1 {
                "Landscape"@
            } else if a[0] == 2 {
                "Portrait"@
            } else if a[0] == 3 {
                "Night scene"@
            } else {
                "Unknown ("@ + spec_udec(a[0] as nat) + ")"@
            }
        },
        _ => Seq::empty(),
    }
}

/// The scene capture type.
pub fn scene_capture_type(e: &TagValue) -> (s: String)
    requires
        e@ is U16,
        e@->U16_0.len() >= 1,
    ensures
        s@ == spec_scene_capture_type(e@),
{
    if let TagValue::U16(v) = e {
        let n: u16 = v[0];
        if n == 0 {
            String::from_str("Standard")
        } else if n == 1 {
            String::from_str("Landscape")
        } else if n == 2 {
            String::from_str("Portrait")
        } else if n == 3 {
            String::from_str("Night scene")
        } else {
            unknown_paren_u16(n)
        }
    } else {
        unreached()
    }
}

/// Readable form, by value code, of: The white balance mode.
pub open spec fn spec_white_balance_mode(v: TagValueV) -> Seq<char> {
    match v {
        TagValueV::U16(a) => {
            if a.len() == 0 {
                Seq::empty()
            } else if a[0] == 0 {
                "Auto"@
            } else if a[0] == 1 {
                "Manual"@
            } else {
                "Unknown ("@ + spec_udec(a[0] as nat) + ")"@
            }
        },
        _ => Seq::empty(),
    }
}

/// The white balance mode.
pub fn white_balance_mode(e: &TagValue) -> (s: String)
    requires
        e@ is U16,
        e@->U16_0.len() >= 1,
    ensures
        s@ == spec_white_balance_mode(e@),
{
    if let TagValue::U16(v) = e {
        let n: u16 = v[0];
        if n == 0 {
            String::from_str("Auto")
        } else if n == 1 {
            String::from_str("Manual")
        } else {
            unknown_paren_u16(n)
        }
    } else {
        unreached()
    }
}

/// Readable form, by value code, of: The sensor type.
pub open spec fn spec_sensing_method(v: TagValueV) -> Seq<char> {
    match v {
        TagValueV::U16(a) => {
            if a.len() == 0 {
                Seq::empty()
            } else if a[0] == 1 {
                "Not defined"@
            } else if a[0] == 2 {
                "One-chip color area sensor"@
            } else if a[0] == 3 {
                "Two-chip color area sensor"@
            } else if a[0] == 4 {
                "Three-chip color area sensor"@
            } else if a[0] == 5 {
                "Color sequential area sensor"@
            } else if a[0] == 7 {
                "Trilinear sensor"@
            } else if a[0] == 8 {
                "Color sequential linear sensor"@
            } else {
                "Unknown ("@ + spec_udec(a[0] as nat) + ")"@
            }
        },
        _ => Seq::empty(),
    }
}

/// The sensor type.
pub fn sensing_method(e: &TagValue) -> (s: String)
    requires
        e@ is U16,
        e@->U16_0.len() >= 1,
    ensures
        s@ == spec_sensing_method(e@),
{
    if let TagValue::U16(v) = e {
        let n: u16 = v[0];
        if n == 1 {
            String::from_str("Not defined")
        } else if n == 2 {
            String::from_str("One-chip color area sensor")
        } else if n == 3 {
            String::from_str("Two-chip color area sensor")
        } else if n == 4 {
            String::from_str("Three-chip color area sensor")
        } else if n == 5 {
            String::from_str("Color sequential area sensor")
        } else if n == 7 {
            String::from_str("Trilinear sensor")
        } else if n == 8 {
            String::from_str("Color sequential linear sensor")
        } else {
            unknown_paren_u16(n)
        }
    } else {
        unreached()
    }
}

/// Readable form, by value code, of: Whether custom rendering was applied.
pub open spec fn spec_custom_rendered(v: TagValueV) -> Seq<char> {
    match v {
        TagValueV::U16(a) => {
            if a.len() == 0 {
                Seq::empty()
            } else if a[0] == 0 {
                "Normal"@
            } else if a[0] == 1 {
                "Custom"@
            } else {
                "Unknown ("@ + spec_udec(a[0] as nat) + ")"@
            }
        },
        _ => Seq::empty(),
    }
}

/// Whether custom rendering was applied.
pub fn custom_rendered(e: &TagValue) -> (s: String)
    requires
        e@ is U16,
        e@->U16_0.len() >= 1,
    ensures
        s@ == spec_custom_rendered(e@),
{
    if let TagValue::U16(v) = e {
        let n: u16 = v[0];
        if n == 0 {
            String::from_str("Normal")
        } else if n == 1 {
            String::from_str("Custom")
        } else {
            unknown_paren_u16(n)
        }
    } else {
        unreached()
    }
}

/// Readable form, by value code, of: The subject distance range.
pub open spec fn spec_subject_distance_range(v: TagValueV) -> Seq<char> {
    match v {
        TagValueV::U16(a) => {
            if a.len() == 0 {
                Seq::empty()
            } else if a[0] == 0 {
                "Unknown"@
            } else if a[0] == 1 {
                "Macro"@
            } else if a[0] == 2 {
                "Close view"@
            } else if a[0] == 3 {
                "Distant view"@
            } else {
                "Unknown ("@ + spec_udec(a[0] as nat) + ")"@
            }
        },
        _ => Seq::empty(),
    }
}

/// The subject distance range.
pub fn subject_distance_range(e: &TagValue) -> (s: String)
    requires
        e@ is U16,
        e@->U16_0.len() >= 1,
    ensures
        s@ == spec_subject_distance_range(e@),
{
    if let TagValue::U16(v) = e {
        let n: u16 = v[0];
        if n == 0 {
            String::from_str("Unknown")
        } else if n == 1 {
            String::from_str("Macro")
        } else if n == 2 {
            String::from_str("Close view")
        } else if n == 3 {
            String::from_str("Distant view")
        } else {
            unknown_paren_u16(n)
        }
    } else {
        unreached()
    }
}

/// Readable form, by value code, of: Whether differential GPS correction was applied.
pub open spec fn spec_gpsdiff(v: TagValueV) -> Seq<char> {
    match v {
        TagValueV::U16(a) => {
            if a.len() == 0 {
                Seq::empty()
            } else if a[0] == 0 {
                "Measurement without differential correction"@
            } else if a[0] == 1 {
                "Differential correction applied"@
            } else {
                "Unknown ("@ + spec_udec(a[0] as nat) + ")"@
            }
        },
        _ => Seq::empty(),
    }
}

/// Whether differential GPS correction was applied.
pub fn gpsdiff(e: &TagValue) -> (s: String)
    requires
        e@ is U16,
        e@->U16_0.len() >= 1,
    ensures
        s@ == spec_gpsdiff(e@),
{
    if let TagValue::U16(v) = e {
        let n: u16 = v[0];
        if n == 0 {
            String::from_str("Measurement without differential correction")
        } else if n == 1 {
            String::from_str("Differential correction applied")
        } else {
            unknown_paren_u16(n)
        }
    } else {
        unreached()
    }
}

/// Readable form, by value text, of: The unit of the GPS destination distance.
pub open spec fn spec_gpsdestdistanceref(v: TagValueV) -> Seq<char> {
    match v {
        TagValueV::Ascii(s) => {
            if s == "N"@ {
                "kn"@
            } else if s == "K"@ {
                "km"@
            } else if s == "M"@ {
                "mi"@
            } else {
                "Unknown ("@ + s + ")"@
            }
        },
        _ => Seq::empty(),
    }
}

/// The unit of the GPS destination distance.
pub fn gpsdestdistanceref(e: &TagValue) -> (s: String)
    requires
        e@ is Ascii,
    ensures
        s@ == spec_gpsdestdistanceref(e@),
{
    if let TagValue::Ascii(v) = e {
        if *v == String::from_str("N") {
            String::from_str("kn")
        } else if *v == String::from_str("K") {
            String::from_str("km")
        } else if *v == String::from_str("M") {
            String::from_str("mi")
        } else {
            unknown_paren_str(v.as_str())
        }
    } else {
        unreached()
    }
}

/// Readable form, by value text, of: The unit of the GPS speed.
pub open spec fn spec_gpsspeedref(v: TagValueV) -> Seq<char> {
    match v {
        TagValueV::Ascii(s) => {
            if s == "N"@ {
                "kn"@
            } else if s == "K"@ {
                "km/h"@
            } else if s == "M"@ {
                "mi/h"@
            } else {
                "Unknown ("@ + s + ")"@
            }
        },
        _ => Seq::empty(),
    }
}

/// The unit of the GPS speed.
pub fn gpsspeedref(e: &TagValue) -> (s: String)
    requires
        e@ is Ascii,
    ensures
        s@ == spec_gpsspeedref(e@),
{
    if let TagValue::Ascii(v) = e {
        if *v == String::from_str("N") {
            String::from_str("kn")
        } else if *v == String::from_str("K") {
            String::from_str("km/h")
        } else if *v == String::from_str("M") {
            String::from_str("mi/h")
        } else {
            unknown_paren_str(v.as_str())
        }
    } else {
        unreached()
    }
}

/// Readable form, by value text, of: The reference for a GPS bearing.
pub open spec fn spec_gpsbearingref(v: TagValueV) -> Seq<char> {
    match v {
        TagValueV::Ascii(s) => {
            if s == "T"@ {
                "True bearing"@
            } else if s == "M"@ {
                "Magnetic bearing"@
            } else {
                "Unknown ("@ + s + ")"@
            }
        },
        _ => Seq::empty(),
    }
}

/// The reference for a GPS bearing.
pub fn gpsbearingref(e: &TagValue) -> (s: String)
    requires
        e@ is Ascii,
    ensures
        s@ == spec_gpsbearingref(e@),
{
    if let TagValue::Ascii(v) = e {
        if *v == String::from_str("T") {
            String::from_str("True bearing")
        } else if *v == String::from_str("M") {
            String::from_str("Magnetic bearing")
        } else {
            unknown_paren_str(v.as_str())
        }
    } else {
        unreached()
    }
}

/// Readable form, by value text, of: The GPS receiver status.
pub open spec fn spec_gpsstatus(v: TagValueV) -> Seq<char> {
    match v {
        TagValueV::Ascii(s) => {
            if s == "A"@ {
                "Measurement in progress"@
            } else if s == "V"@ {
                "Measurement is interoperability"@
            } else {
                "Unknown ("@ + s + ")"@
            }
        },
        _ => Seq::empty(),
    }
}

/// The GPS receiver status.
pub fn gpsstatus(e: &TagValue) -> (s: String)
    requires
        e@ is Ascii,
    ensures
        s@ == spec_gpsstatus(e@),
{
    if let TagValue::Ascii(v) = e {
        if *v == String::from_str("A") {
            String::from_str("Measurement in progress")
        } else if *v == String::from_str("V") {
            String::from_str("Measurement is interoperability")
        } else {
            unknown_paren_str(v.as_str())
        }
    } else {
        unreached()
    }
}

/// Readable form, by value text, of: The GPS measurement mode.
pub open spec fn spec_gpsmeasuremode(v: TagValueV) -> Seq<char> {
    match v {
        TagValueV::Ascii(s) => {
            if s == "2"@ {
                "2-dimension"@
            } else if s == "3"@ {
                "3-dimension"@
            } else {
                "Unknown ("@ + s + ")"@
            }
        },
        _ => Seq::empty(),
    }
}

/// The GPS measurement mode.
pub fn gpsmeasuremode(e: &TagValue) -> (s: String)
    requires
        e@ is Ascii,
    ensures
        s@ == spec_gpsmeasuremode(e@),
{
    if let TagValue::Ascii(v) = e {
        if *v == String::from_str("2") {
            String::from_str("2-dimension")
        } else if *v == String::from_str("3") {
            String::from_str("3-dimension")
        } else {
            unknown_paren_str(v.as_str())
        }
    } else {
        unreached()
    }
}


/// Readable form of the flash status bit field.  Bit 5 set means there is
/// no flash at all and short-circuits everything else; otherwise bit 0
/// reports firing, bits 1-2 the strobe return (only when fired), bits 3-4
/// forced fire, suppression or auto mode, and bit 6 redeye reduction
/// (only when fired).  In auto mode the auto text takes the place of the
/// strobe return text.
pub open spec fn spec_flash(v: TagValueV) -> Seq<char> {
    match v {
        TagValueV::U16(a) => {
            if a.len() == 0 {
                Seq::empty()
            } else {
                let n = a[0];
                if n & 32 > 0 {
                    "Does not have a flash."@
                } else {
                    let fired = n & 1 > 0;
                    let b0 = if fired {
                        "Fired. "@
                    } else {
                        "Did not fire. "@
                    };
                    let b6 = if fired {
                        if n & 64 > 0 {
                            "Redeye reduction. "@
                        } else {
                            "No redeye reduction. "@
                        }
                    } else {
                        ""@
                    };
                    let m12 = (n >> 1) & 3;
                    let strobe = if fired && m12 == 2 {
                        "Strobe ret not detected. "@
                    } else if fired && m12 == 3 {
                        "Strobe ret detected. "@
                    } else {
                        ""@
                    };
                    let m34 = (n >> 3) & 3;
                    let b12 = if m34 == 3 {
                        "Auto mode. "@
                    } else {
                        strobe
                    };
                    let b34 = if m34 == 1 {
                        "Forced fire. "@
                    } else if m34 == 2 {
                        "Forced suppresion. "@
                    } else {
                        ""@
                    };
                    b0 + b12 + b34 + b6
                }
            }
        },
        _ => Seq::empty(),
    }
}

/// Render the flash status bit field, as `spec_flash`.
pub fn flash(e: &TagValue) -> (s: String)
    requires
        e@ is U16,
        e@->U16_0.len() >= 1,
    ensures
        s@ == spec_flash(e@),
{
    if let TagValue::U16(v) = e {
        let n: u16 = v[0];
        if n & 32 > 0 {
            return String::from_str("Does not have a flash.");
        }
        let fired: bool = n & 1 > 0;
        let b0: &str = if fired {
            "Fired. "
        } else {
            "Did not fire. "
        };
        let b6: &str = if fired {
            if n & 64 > 0 {
                "Redeye reduction. "
            } else {
                "No redeye reduction. "
            }
        } else {
            ""
        };
        let m12: u16 = (n >> 1) & 3;
        let strobe: &str = if fired && m12 == 2 {
            "Strobe ret not detected. "
        } else if fired && m12 == 3 {
            "Strobe ret detected. "
        } else {
            ""
        };
        let m34: u16 = (n >> 3) & 3;
        let b12: &str = if m34 == 3 {
            "Auto mode. "
        } else {
            strobe
        };
        let b34: &str = if m34 == 1 {
            "Forced fire. "
        } else if m34 == 2 {
            "Forced suppresion. "
        } else {
            ""
        };
        let mut s = String::from_str(b0);
        s.append(b12);
        s.append(b34);
        s.append(b6);
        s
    } else {
        unreached()
    }
}

/// Readable form of a subject area: a point for two elements, a circle
/// for three, a rectangle for four, and the joined list otherwise (with a
/// trailing space, as the listing form has).
pub open spec fn spec_subject_area(v: TagValueV) -> Seq<char> {
    match v {
        TagValueV::U16(a) => {
            if a.len() == 2 {
                "at pixel "@ + spec_udec(a[0] as nat) + ","@ + spec_udec(a[1] as nat)
            } else if a.len() == 3 {
                "at center "@ + spec_udec(a[0] as nat) + ","@ + spec_udec(a[1] as nat)
                    + " radius "@ + spec_udec(a[2] as nat)
            } else if a.len() == 4 {
                "at rectangle "@ + spec_udec(a[0] as nat) + ","@ + spec_udec(a[1] as nat)
                    + " width "@ + spec_udec(a[2] as nat) + " height "@ + spec_udec(a[3] as nat)
            } else {
                "Unknown ("@ + spec_csv_u16(a) + ") "@
            }
        },
        _ => Seq::empty(),
    }
}

/// Render a subject area.
pub fn subject_area(e: &TagValue) -> (s: String)
    requires
        e@ is U16,
    ensures
        s@ == spec_subject_area(e@),
{
    if let TagValue::U16(v) = e {
        if v.len() == 2 {
            let mut s = String::from_str("at pixel ");
            let d0 = dec_u128(v[0] as u128);
            s.append(d0.as_str());
            s.append(",");
            let d1 = dec_u128(v[1] as u128);
            s.append(d1.as_str());
            s
        } else if v.len() == 3 {
            let mut s = String::from_str("at center ");
            let d0 = dec_u128(v[0] as u128);
            s.append(d0.as_str());
            s.append(",");
            let d1 = dec_u128(v[1] as u128);
            s.append(d1.as_str());
            s.append(" radius ");
            let d2 = dec_u128(v[2] as u128);
            s.append(d2.as_str());
            s
        } else if v.len() == 4 {
            let mut s = String::from_str("at rectangle ");
            let d0 = dec_u128(v[0] as u128);
            s.append(d0.as_str());
            s.append(",");
            let d1 = dec_u128(v[1] as u128);
            s.append(d1.as_str());
            s.append(" width ");
            let d2 = dec_u128(v[2] as u128);
            s.append(d2.as_str());
            s.append(" height ");
            let d3 = dec_u128(v[3] as u128);
            s.append(d3.as_str());
            s
        } else {
            let mut s = String::from_str("Unknown (");
            let c = v.to_csv();
            s.append(c.as_str());
            s.append(") ");
            s
        }
    } else {
        unreached()
    }
}

/// Readable form of a subject location: the pixel coordinates.
pub open spec fn spec_subject_location(v: TagValueV) -> Seq<char> {
    match v {
        TagValueV::U16(a) => {
            if a.len() < 2 {
                Seq::empty()
            } else {
                "at pixel "@ + spec_udec(a[0] as nat) + ","@ + spec_udec(a[1] as nat)
            }
        },
        _ => Seq::empty(),
    }
}

/// Render a subject location.
pub fn subject_location(e: &TagValue) -> (s: String)
    requires
        e@ is U16,
        e@->U16_0.len() >= 2,
    ensures
        s@ == spec_subject_location(e@),
{
    if let TagValue::U16(v) = e {
        let mut s = String::from_str("at pixel ");
        let d0 = dec_u128(v[0] as u128);
        s.append(d0.as_str());
        s.append(",");
        let d1 = dec_u128(v[1] as u128);
        s.append(d1.as_str());
        s
    } else {
        unreached()
    }
}

/// Whether a rational is the zero-over-zero form whose quotient is NaN.
pub open spec fn spec_is_nan_rational(r: URational) -> bool {
    r.numerator == 0 && r.denominator == 0
}

/// Readable form of a lens specification [minimum focal length, maximum
/// focal length, minimum aperture, maximum aperture].  Equal focal
/// lengths render as a single length with one aperture; otherwise a
/// range; an aperture whose value is NaN renders as `unknown`.
pub open spec fn spec_lens_spec(v: TagValueV) -> Seq<char> {
    match v {
        TagValueV::URational(a) => {
            if a.len() < 4 {
                Seq::empty()
            } else {
                let f0 = spec_uratio(a[0].numerator as nat, a[0].denominator as nat);
                let f1 = spec_uratio(a[1].numerator as nat, a[1].denominator as nat);
                let a0 = spec_ufixed(a[2].numerator as nat, a[2].denominator as nat, 1);
                let a1 = spec_ufixed(a[3].numerator as nat, a[3].denominator as nat, 1);
                if a[0] == a[1] {
                    if !spec_is_nan_rational(a[2]) {
                        f0 + " mm f/"@ + a0
                    } else {
                        f0 + " mm f/unknown"@
                    }
                } else {
                    if !spec_is_nan_rational(a[2]) && !spec_is_nan_rational(a[3]) {
                        f0 + "-"@ + f1 + " mm f/"@ + a0 + "-"@ + a1
                    } else {
                        f0 + "-"@ + f1 + " mm f/unknown"@
                    }
                }
            }
        },
        _ => Seq::empty(),
    }
}

/// Render a lens specification.
pub fn lens_spec(e: &TagValue) -> (s: String)
    requires
        e@ is URational,
        e@->URational_0.len() >= 4,
    ensures
        s@ == spec_lens_spec(e@),
{
    if let TagValue::URational(v) = e {
        let r0: URational = v[0];
        let r1: URational = v[1];
        let r2: URational = v[2];
        let r3: URational = v[3];
        let a0_known: bool = !(r2.numerator == 0 && r2.denominator == 0);
        let a1_known: bool = !(r3.numerator == 0 && r3.denominator == 0);
        let mut s = ratio_u64(r0.numerator as u64, r0.denominator as u64);
        if r0 == r1 {
            if a0_known {
                s.append(" mm f/");
                let a0 = fixed_u32(r2.numerator, r2.denominator, 1);
                s.append(a0.as_str());
            } else {
                s.append(" mm f/unknown");
            }
        } else {
            s.append("-");
            let f1 = ratio_u64(r1.numerator as u64, r1.denominator as u64);
            s.append(f1.as_str());
            if a0_known && a1_known {
                s.append(" mm f/");
                let a0 = fixed_u32(r2.numerator, r2.denominator, 1);
                s.append(a0.as_str());
                s.append("-");
                let a1 = fixed_u32(r3.numerator, r3.denominator, 1);
                s.append(a1.as_str());
            } else {
                s.append(" mm f/unknown");
            }
        }
        s
    } else {
        unreached()
    }
}

/// Readable form of an opaque value that the standard guarantees to be
/// text: the bytes decoded as lossy UTF-8.
pub open spec fn spec_undefined_as_ascii(v: TagValueV) -> Seq<char> {
    match v {
        TagValueV::Undefined(a, _) => utf8_lossy_of(a),
        _ => Seq::empty(),
    }
}

/// Render an opaque text value as lossy UTF-8.
pub fn undefined_as_ascii(e: &TagValue) -> (s: String)
    requires
        e@ is Undefined,
    ensures
        s@ == spec_undefined_as_ascii(e@),
{
    if let TagValue::Undefined(v, _le) = e {
        utf8_lossy(v.as_slice())
    } else {
        unreached()
    }
}

/// Readable form of a small opaque value: its bytes joined by `, `.
pub open spec fn spec_undefined_as_u8(v: TagValueV) -> Seq<char> {
    match v {
        TagValueV::Undefined(a, _) => spec_csv_u8(a),
        _ => Seq::empty(),
    }
}

/// Render a small opaque value as a byte list.
pub fn undefined_as_u8(e: &TagValue) -> (s: String)
    requires
        e@ is Undefined,
    ensures
        s@ == spec_undefined_as_u8(e@),
{
    if let TagValue::Undefined(v, _le) = e {
        v.to_csv()
    } else {
        unreached()
    }
}

/// Readable form of a large opaque value: a note with its length.
pub open spec fn spec_undefined_as_blob(v: TagValueV) -> Seq<char> {
    match v {
        TagValueV::Undefined(a, _) => "Blob of "@ + spec_udec(a.len()) + " bytes"@,
        _ => Seq::empty(),
    }
}

/// Render a large opaque value as a length note.
pub fn undefined_as_blob(e: &TagValue) -> (s: String)
    requires
        e@ is Undefined,
    ensures
        s@ == spec_undefined_as_blob(e@),
{
    if let TagValue::Undefined(v, _le) = e {
        let mut s = String::from_str("Blob of ");
        let d = dec_u128(v.len() as u128);
        s.append(d.as_str());
        s.append(" bytes");
        s
    } else {
        unreached()
    }
}

/// Whether the first eight bytes of `a` announce an ASCII payload.
pub open spec fn spec_preamble_ascii(a: Seq<u8>) -> bool {
    a.len() >= 8 && a[0] == 0x41 && a[1] == 0x53 && a[2] == 0x43 && a[3] == 0x49 && a[4] == 0x49
        && a[5] == 0 && a[6] == 0 && a[7] == 0
}

/// Whether the first eight bytes of `a` announce a JIS payload.
pub open spec fn spec_preamble_jis(a: Seq<u8>) -> bool {
    a.len() >= 8 && a[0] == 0x4a && a[1] == 0x49 && a[2] == 0x53 && a[3] == 0 && a[4] == 0 && a[5]
        == 0 && a[6] == 0 && a[7] == 0
}

/// Whether the first eight bytes of `a` announce a UTF-16 payload.
pub open spec fn spec_preamble_unicode(a: Seq<u8>) -> bool {
    a.len() >= 8 && a[0] == 0x55 && a[1] == 0x4e && a[2] == 0x49 && a[3] == 0x43 && a[4] == 0x4f
        && a[5] == 0x44 && a[6] == 0x45 && a[7] == 0
}

/// The element count of the UTF-16 payload after the preamble: half the
/// remaining bytes, capped at the 32-bit count range.
pub open spec fn spec_unicode_count(a: Seq<u8>) -> nat {
    let half = ((a.len() - 8) as nat) / 2;
    if half > 0xffff_ffff {
        0xffff_ffff
    } else {
        half
    }
}

/// Readable form of an opaque string value with an encoding preamble:
/// the first eight bytes may announce ASCII (decoded as lossy UTF-8), JIS
/// (listed as bytes) or UTF-16 (decoded with the value's endianness); a
/// short or unrecognized preamble falls back to listing all the bytes.
pub open spec fn spec_undefined_as_encoded_string(v: TagValueV) -> Seq<char> {
    match v {
        TagValueV::Undefined(a, le) => {
            if a.len() < 8 {
                "String w/ truncated preamble "@ + spec_csv_u8(a)
            } else if spec_preamble_ascii(a) {
                utf8_lossy_of(a.skip(8))
            } else if spec_preamble_jis(a) {
                "JIS string "@ + spec_csv_u8(a.skip(8))
            } else if spec_preamble_unicode(a) {
                utf16_lossy_of(spec_read_u16_array(le, spec_unicode_count(a), a.skip(8)))
            } else {
                "String w/ undefined encoding "@ + spec_csv_u8(a)
            }
        },
        _ => Seq::empty(),
    }
}

/// Render an opaque string value with an encoding preamble.
pub fn undefined_as_encoded_string(e: &TagValue) -> (s: String)
    requires
        e@ is Undefined,
    ensures
        s@ == spec_undefined_as_encoded_string(e@),
{
    if let TagValue::Undefined(v, le) = e {
        let n: usize = v.len();
        if n < 8 {
            let mut s = String::from_str("String w/ truncated preamble ");
            let c = v.to_csv();
            s.append(c.as_str());
            s
        } else if v[0] == 0x41 && v[1] == 0x53 && v[2] == 0x43 && v[3] == 0x49 && v[4] == 0x49
            && v[5] == 0 && v[6] == 0 && v[7] == 0 {
            proof {
                assert(v@.subrange(8, v@.len() as int) =~= v@.skip(8));
            }
            utf8_lossy(slice_subrange(v.as_slice(), 8, n))
        } else if v[0] == 0x4a && v[1] == 0x49 && v[2] == 0x53 && v[3] == 0 && v[4] == 0 && v[5]
            == 0 && v[6] == 0 && v[7] == 0 {
            proof {
                assert(v@.subrange(8, v@.len() as int) =~= v@.skip(8));
            }
            let mut s = String::from_str("JIS string ");
            let rest = slice_subrange(v.as_slice(), 8, n);
            let c = rest.to_csv();
            s.append(c.as_str());
            s
        } else if v[0] == 0x55 && v[1] == 0x4e && v[2] == 0x49 && v[3] == 0x43 && v[4] == 0x4f
            && v[5] == 0x44 && v[6] == 0x45 && v[7] == 0 {
            proof {
                assert(v@.subrange(8, v@.len() as int) =~= v@.skip(8));
            }
            let rest = slice_subrange(v.as_slice(), 8, n);
            let half: usize = rest.len() / 2;
            let count: u32 = if half > 0xffff_ffff {
                0xffff_ffff
            } else {
                half as u32
            };
            let words = read_u16_array(*le, count, rest);
            utf16_lossy(words.as_slice())
        } else {
            let mut s = String::from_str("String w/ undefined encoding ");
            let c = v.to_csv();
            s.append(c.as_str());
            s
        }
    } else {
        unreached()
    }
}

} // verus!
