//! Joining of rendered values into comma-separated readable strings, and
//! decoding of an IFD entry's payload into a typed value.

use crate::lowlevel::read_i8_array;
use crate::lowlevel::read_f32_bits_array;
use crate::lowlevel::read_f64_bits_array;
use crate::lowlevel::read_i16_array;
use crate::lowlevel::read_i32_array;
use crate::lowlevel::read_irational_array;
use crate::lowlevel::read_u16_array;
use crate::lowlevel::read_u32_array;
use crate::lowlevel::read_urational_array;
use crate::lowlevel::spec_read_f32_bits_array;
use crate::lowlevel::spec_read_f64_bits_array;
use crate::lowlevel::spec_read_i16_array;
use crate::lowlevel::spec_read_i32_array;
use crate::lowlevel::spec_read_i8_array;
use crate::lowlevel::spec_read_u16_array;
use crate::lowlevel::spec_read_u32_array;
use crate::lowlevel::spec_read_urational_array;
use crate::lowlevel::spec_read_irational_array;
use crate::textenc::utf8_lossy;
use crate::textenc::utf8_lossy_of;
use crate::types::IfdEntry;
use crate::types::IfdEntryV;
use crate::types::IfdFormat;
use crate::types_impl::spec_format_code;
use crate::types_impl::spec_format_size;
use crate::types::TagValue;
use crate::types::TagValueV;
use vstd::prelude::*;
use vstd::slice::slice_subrange;
use vstd::slice::slice_to_vec;
use vstd::string::*;

verus! {

/// The comma-space-separated concatenation of `items`: empty for no items,
/// the single item alone, and otherwise the items joined by `, `.
pub open spec fn spec_join_csv(items: Seq<Seq<char>>) -> Seq<char>
    decreases items.len(),
{
    if items.len() == 0 {
        Seq::empty()
    } else if items.len() == 1 {
        items[0]
    } else {
        items[0] + ", "@ + spec_join_csv(items.drop_first())
    }
}

/// Appending one more item to a joined list appends a separator (unless
/// the list was empty) and the item.
pub proof fn lemma_join_csv_push(items: Seq<Seq<char>>, x: Seq<char>)
    ensures
        spec_join_csv(items.push(x)) == if items.len() == 0 {
            x
        } else {
            spec_join_csv(items) + ", "@ + x
        },
    decreases items.len(),
{
    if items.len() == 0 {
        assert(items.push(x) =~~= seq![x]);
        assert(spec_join_csv(seq![x]) == x);
    } else if items.len() == 1 {
        assert(items.push(x).drop_first() =~~= seq![x]);
        assert(spec_join_csv(seq![x]) == x);
        assert(items.push(x).len() == 2);
        assert(spec_join_csv(items.push(x)) == items.push(x)[0] + ", "@ + spec_join_csv(
            items.push(x).drop_first(),
        ));
        assert(items.push(x)[0] == items[0]);
    } else {
        lemma_join_csv_push(items.drop_first(), x);
        assert(items.push(x).drop_first() =~~= items.drop_first().push(x));
        assert(items.push(x)[0] == items[0]);
        assert(spec_join_csv(items.push(x)) == items[0] + ", "@ + spec_join_csv(
            items.drop_first().push(x),
        ));
    }
}

/// Join a list of already rendered values with `, ` separators.
pub fn numarray_to_string(numbers: &Vec<String>) -> (s: String)
    ensures
        s@ == spec_join_csv(numbers.deep_view()),
{
    let mut s = String::new();
    let mut i: usize = 0;
    while i < numbers.len()
        invariant
            i <= numbers.len(),
            s@ == spec_join_csv(numbers.deep_view().take(i as int)),
        decreases numbers.len() - i,
    {
        if i > 0 {
            s.append(", ");
        }
        s.append(numbers[i].as_str());
        proof {
            lemma_join_csv_push(numbers.deep_view().take(i as int), numbers.deep_view()[i as int]);
            assert(numbers.deep_view().take(i + 1) =~~= numbers.deep_view().take(i as int).push(
                numbers.deep_view()[i as int],
            ));
        }
        i = i + 1;
    }
    proof {
        assert(numbers.deep_view().take(numbers@.len() as int) =~~= numbers.deep_view());
    }
    s
}

/// `data` with its trailing NUL bytes removed (there may be any number of
/// them, including none).
pub open spec fn spec_ascii_strip(data: Seq<u8>) -> Seq<u8>
    decreases data.len(),
{
    if data.len() > 0 && data.last() == 0 {
        spec_ascii_strip(data.drop_last())
    } else {
        data
    }
}

/// The typed value an entry decodes to.  Text strips trailing NULs and is
/// decoded as lossy UTF-8; fixed-width formats whose payload is shorter
/// than count times element size decode to `Invalid` with the raw bytes
/// and the declared format and count; otherwise exactly `count` elements
/// are read; `Undefined` passes the bytes through; an unrecognized format
/// gives `Unknown`.  Every entry decodes to some value: this is total.
pub open spec fn spec_tag_value_new(e: IfdEntryV) -> TagValueV {
    match e.format {
        IfdFormat::Ascii => TagValueV::Ascii(utf8_lossy_of(spec_ascii_strip(e.data))),
        IfdFormat::U8 => {
            if e.data.len() < e.count {
                TagValueV::Invalid(e.data, e.le, 1, e.count)
            } else {
                TagValueV::U8(e.data.take(e.count as int))
            }
        },
        IfdFormat::I8 => {
            if e.data.len() < e.count {
                TagValueV::Invalid(e.data, e.le, 6, e.count)
            } else {
                TagValueV::I8(spec_read_i8_array(e.count as nat, e.data))
            }
        },
        IfdFormat::U16 => {
            if e.data.len() < e.count * 2 {
                TagValueV::Invalid(e.data, e.le, 3, e.count)
            } else {
                TagValueV::U16(spec_read_u16_array(e.le, e.count as nat, e.data))
            }
        },
        IfdFormat::I16 => {
            if e.data.len() < e.count * 2 {
                TagValueV::Invalid(e.data, e.le, 8, e.count)
            } else {
                TagValueV::I16(spec_read_i16_array(e.le, e.count as nat, e.data))
            }
        },
        IfdFormat::U32 => {
            if e.data.len() < e.count * 4 {
                TagValueV::Invalid(e.data, e.le, 4, e.count)
            } else {
                TagValueV::U32(spec_read_u32_array(e.le, e.count as nat, e.data))
            }
        },
        IfdFormat::I32 => {
            if e.data.len() < e.count * 4 {
                TagValueV::Invalid(e.data, e.le, 9, e.count)
            } else {
                TagValueV::I32(spec_read_i32_array(e.le, e.count as nat, e.data))
            }
        },
        IfdFormat::F32 => {
            if e.data.len() < e.count * 4 {
                TagValueV::Invalid(e.data, e.le, 11, e.count)
            } else {
                TagValueV::F32(spec_read_f32_bits_array(e.le, e.count as nat, e.data))
            }
        },
        IfdFormat::F64 => {
            if e.data.len() < e.count * 8 {
                TagValueV::Invalid(e.data, e.le, 12, e.count)
            } else {
                TagValueV::F64(spec_read_f64_bits_array(e.le, e.count as nat, e.data))
            }
        },
        IfdFormat::URational => {
            if e.data.len() < e.count * 8 {
                TagValueV::Invalid(e.data, e.le, 5, e.count)
            } else {
                TagValueV::URational(spec_read_urational_array(e.le, e.count as nat, e.data))
            }
        },
        IfdFormat::IRational => {
            if e.data.len() < e.count * 8 {
                TagValueV::Invalid(e.data, e.le, 10, e.count)
            } else {
                TagValueV::IRational(spec_read_irational_array(e.le, e.count as nat, e.data))
            }
        },
        IfdFormat::Undefined => TagValueV::Undefined(e.data, e.le),
        IfdFormat::Unknown => TagValueV::Unknown(e.data, e.le),
    }
}

/// Decode an entry's payload into its typed value, as
/// `spec_tag_value_new` says; total over every entry.
pub fn tag_value_new(f: &IfdEntry) -> (v: TagValue)
    ensures
        v@ == spec_tag_value_new(f@),
{
    let n: usize = f.data.len();
    match f.format {
        IfdFormat::Ascii => {
            let mut tot: usize = n;
            proof {
                assert(f.data@.take(f.data@.len() as int) =~= f.data@);
            }
            while tot > 0 && f.data[tot - 1] == 0
                invariant
                    tot <= f.data@.len(),
                    spec_ascii_strip(f.data@) == spec_ascii_strip(f.data@.take(tot as int)),
                decreases tot,
            {
                proof {
                    assert(f.data@.take(tot as int).drop_last() =~= f.data@.take(tot - 1));
                }
                tot = tot - 1;
            }
            proof {
                assert(f.data@.take(f.data@.len() as int) =~= f.data@);
                if tot == 0 {
                    assert(f.data@.take(0) =~= Seq::<u8>::empty());
                }
            }
            let s = utf8_lossy(slice_subrange(f.data.as_slice(), 0, tot));
            TagValue::Ascii(s)
        },
        IfdFormat::U8 => {
            if (n as u64) < f.count as u64 {
                TagValue::Invalid(slice_to_vec(f.data.as_slice()), f.le, 1, f.count)
            } else {
                TagValue::U8(slice_to_vec(slice_subrange(f.data.as_slice(), 0, f.count as usize)))
            }
        },
        IfdFormat::I8 => {
            if (n as u64) < f.count as u64 {
                TagValue::Invalid(slice_to_vec(f.data.as_slice()), f.le, 6, f.count)
            } else {
                TagValue::I8(read_i8_array(f.count, f.data.as_slice()))
            }
        },
        IfdFormat::U16 => {
            if (n as u64) < (f.count as u64) * 2 {
                TagValue::Invalid(slice_to_vec(f.data.as_slice()), f.le, 3, f.count)
            } else {
                TagValue::U16(read_u16_array(f.le, f.count, f.data.as_slice()))
            }
        },
        IfdFormat::I16 => {
            if (n as u64) < (f.count as u64) * 2 {
                TagValue::Invalid(slice_to_vec(f.data.as_slice()), f.le, 8, f.count)
            } else {
                TagValue::I16(read_i16_array(f.le, f.count, f.data.as_slice()))
            }
        },
        IfdFormat::U32 => {
            if (n as u64) < (f.count as u64) * 4 {
                TagValue::Invalid(slice_to_vec(f.data.as_slice()), f.le, 4, f.count)
            } else {
                TagValue::U32(read_u32_array(f.le, f.count, f.data.as_slice()))
            }
        },
        IfdFormat::I32 => {
            if (n as u64) < (f.count as u64) * 4 {
                TagValue::Invalid(slice_to_vec(f.data.as_slice()), f.le, 9, f.count)
            } else {
                TagValue::I32(read_i32_array(f.le, f.count, f.data.as_slice()))
            }
        },
        IfdFormat::F32 => {
            if (n as u64) < (f.count as u64) * 4 {
                TagValue::Invalid(slice_to_vec(f.data.as_slice()), f.le, 11, f.count)
            } else {
                TagValue::F32(read_f32_bits_array(f.le, f.count, f.data.as_slice()))
            }
        },
        IfdFormat::F64 => {
            if (n as u64) < (f.count as u64) * 8 {
                TagValue::Invalid(slice_to_vec(f.data.as_slice()), f.le, 12, f.count)
            } else {
                TagValue::F64(read_f64_bits_array(f.le, f.count, f.data.as_slice()))
            }
        },
        IfdFormat::URational => {
            if (n as u64) < (f.count as u64) * 8 {
                TagValue::Invalid(slice_to_vec(f.data.as_slice()), f.le, 5, f.count)
            } else {
                TagValue::URational(read_urational_array(f.le, f.count, f.data.as_slice()))
            }
        },
        IfdFormat::IRational => {
            if (n as u64) < (f.count as u64) * 8 {
                TagValue::Invalid(slice_to_vec(f.data.as_slice()), f.le, 10, f.count)
            } else {
                TagValue::IRational(read_irational_array(f.le, f.count, f.data.as_slice()))
            }
        },
        IfdFormat::Undefined => TagValue::Undefined(slice_to_vec(f.data.as_slice()), f.le),
        IfdFormat::Unknown => TagValue::Unknown(slice_to_vec(f.data.as_slice()), f.le),
    }
}

/// Whether a format is fixed-width: every format except the
/// variable-length text, opaque and unrecognized ones.
pub open spec fn spec_is_fixed_width(f: IfdFormat) -> bool {
    match f {
        IfdFormat::Ascii => false,
        IfdFormat::Undefined => false,
        IfdFormat::Unknown => false,
        _ => true,
    }
}

/// Short-buffer safety: for every fixed-width format, an entry whose
/// payload is shorter than count times element size decodes to `Invalid`
/// carrying the raw bytes, the endianness, and the declared format code
/// and count — never to anything else.
pub proof fn lemma_short_buffer_invalid(e: IfdEntryV)
    requires
        spec_is_fixed_width(e.format),
        e.data.len() < e.count * spec_format_size(e.format),
    ensures
        spec_tag_value_new(e) == TagValueV::Invalid(
            e.data,
            e.le,
            spec_format_code(e.format),
            e.count,
        ),
{
    match e.format {
        IfdFormat::U8 => {
            assert(e.data.len() < e.count * 1);
        },
        IfdFormat::I8 => {
            assert(e.data.len() < e.count * 1);
        },
        IfdFormat::U16 => {
            assert(e.data.len() < e.count * 2);
        },
        IfdFormat::I16 => {
            assert(e.data.len() < e.count * 2);
        },
        IfdFormat::U32 => {
            assert(e.data.len() < e.count * 4);
        },
        IfdFormat::I32 => {
            assert(e.data.len() < e.count * 4);
        },
        IfdFormat::F32 => {
            assert(e.data.len() < e.count * 4);
        },
        IfdFormat::F64 => {
            assert(e.data.len() < e.count * 8);
        },
        IfdFormat::URational => {
            assert(e.data.len() < e.count * 8);
        },
        IfdFormat::IRational => {
            assert(e.data.len() < e.count * 8);
        },
        _ => {
        },
    }
}

/// Trailing-NUL stripping ignores any number of trailing NUL bytes.
pub proof fn lemma_strip_trailing_nuls(data: Seq<u8>, n: nat)
    ensures
        spec_ascii_strip(data + Seq::new(n, |i: int| 0u8)) == spec_ascii_strip(data),
    decreases n,
{
    if n == 0 {
        assert(data + Seq::new(0, |i: int| 0u8) =~= data);
    } else {
        let padded = data + Seq::new(n, |i: int| 0u8);
        assert(padded.len() > 0 && padded.last() == 0);
        assert(padded.drop_last() =~= data + Seq::new((n - 1) as nat, |i: int| 0u8));
        lemma_strip_trailing_nuls(data, (n - 1) as nat);
    }
}

/// Trimming idempotence: decoding a text entry whose payload carries any
/// number of additional trailing NUL bytes yields the same value as
/// decoding it without them.
pub proof fn lemma_ascii_decode_trailing_nuls(e: IfdEntryV, n: nat)
    requires
        e.format is Ascii,
    ensures
        spec_tag_value_new(IfdEntryV { data: e.data + Seq::new(n, |i: int| 0u8), ..e })
            == spec_tag_value_new(e),
{
    lemma_strip_trailing_nuls(e.data, n);
}

} // verus!
