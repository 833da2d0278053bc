//! Low-level reading of fixed-width scalars and arrays from byte slices.
//!
//! Multi-byte integers are assembled byte by byte according to the
//! endianness flag (`le` true: least-significant byte first).  Signed
//! integers come from the unsigned read by subtracting the type's bias.
//! Floating-point elements are read as their IEEE-754 bit patterns of the
//! matching width, assembled with the same endianness flag.  Callers must
//! establish that the slice is long enough.

use crate::rational::IRational;
use crate::rational::URational;
use vstd::prelude::*;
use vstd::slice::slice_subrange;

verus! {


/// The u16 held in the first two bytes of `s`, per the endianness flag.
pub open spec fn spec_read_u16(le: bool, s: Seq<u8>) -> u16
    recommends
        s.len() >= 2,
{
    if le {
        ((s[1] as u16) * 256 + (s[0] as u16)) as u16
    } else {
        ((s[0] as u16) * 256 + (s[1] as u16)) as u16
    }
}

/// The u32 held in the first four bytes of `s`, per the endianness flag.
pub open spec fn spec_read_u32(le: bool, s: Seq<u8>) -> u32
    recommends
        s.len() >= 4,
{
    if le {
        ((s[3] as u32) * 0x1000000 + (s[2] as u32) * 0x10000 + (s[1] as u32) * 0x100 + (
        s[0] as u32)) as u32
    } else {
        ((s[0] as u32) * 0x1000000 + (s[1] as u32) * 0x10000 + (s[2] as u32) * 0x100 + (
        s[3] as u32)) as u32
    }
}

/// The u64 held in the first eight bytes of `s`, per the endianness flag.
pub open spec fn spec_read_u64(le: bool, s: Seq<u8>) -> u64
    recommends
        s.len() >= 8,
{
    if le {
        ((spec_read_u32(le, s.subrange(4, 8)) as u64) * 0x100000000 + (spec_read_u32(
            le,
            s.subrange(0, 4),
        ) as u64)) as u64
    } else {
        ((spec_read_u32(le, s.subrange(0, 4)) as u64) * 0x100000000 + (spec_read_u32(
            le,
            s.subrange(4, 8),
        ) as u64)) as u64
    }
}

/// The i8 whose two's-complement byte is `b`.
pub open spec fn spec_read_i8(b: u8) -> i8 {
    if b >= 0x80 {
        (b - 0x100) as i8
    } else {
        b as i8
    }
}

/// The i16 whose two's-complement bytes are the first two of `s`.
pub open spec fn spec_read_i16(le: bool, s: Seq<u8>) -> i16
    recommends
        s.len() >= 2,
{
    if spec_read_u16(le, s) >= 0x8000 {
        (spec_read_u16(le, s) - 0x10000) as i16
    } else {
        spec_read_u16(le, s) as i16
    }
}

/// The i32 whose two's-complement bytes are the first four of `s`.
pub open spec fn spec_read_i32(le: bool, s: Seq<u8>) -> i32
    recommends
        s.len() >= 4,
{
    if spec_read_u32(le, s) >= 0x80000000 {
        (spec_read_u32(le, s) - 0x100000000) as i32
    } else {
        spec_read_u32(le, s) as i32
    }
}

/// The unsigned rational held in the first eight bytes of `s`: numerator
/// first, then denominator, each a u32 per the endianness flag.
pub open spec fn spec_read_urational(le: bool, s: Seq<u8>) -> URational
    recommends
        s.len() >= 8,
{
    URational {
        numerator: spec_read_u32(le, s.subrange(0, 4)),
        denominator: spec_read_u32(le, s.subrange(4, 8)),
    }
}

/// The signed rational held in the first eight bytes of `s`.
pub open spec fn spec_read_irational(le: bool, s: Seq<u8>) -> IRational
    recommends
        s.len() >= 8,
{
    IRational {
        numerator: spec_read_i32(le, s.subrange(0, 4)),
        denominator: spec_read_i32(le, s.subrange(4, 8)),
    }
}

/// Convert a raw byte into the i8 with the same two's-complement bits.
pub fn read_i8(raw: u8) -> (r: i8)
    ensures
        r == spec_read_i8(raw),
{
    let u: i16 = raw as i16;
    if u >= 0x80 {
        (u - 0x100) as i8
    } else {
        u as i8
    }
}

/// Read a u16 from the start of a byte slice.
pub fn read_u16(le: bool, raw: &[u8]) -> (r: u16)
    requires
        raw@.len() >= 2,
    ensures
        r == spec_read_u16(le, raw@),
{
    if le {
        (raw[1] as u16) * 256 + (raw[0] as u16)
    } else {
        (raw[0] as u16) * 256 + (raw[1] as u16)
    }
}

/// Read an i16 from the start of a byte slice.
pub fn read_i16(le: bool, raw: &[u8]) -> (r: i16)
    requires
        raw@.len() >= 2,
    ensures
        r == spec_read_i16(le, raw@),
{
    let u: i32 = read_u16(le, raw) as i32;
    if u >= 0x8000 {
        (u - 0x10000) as i16
    } else {
        u as i16
    }
}

/// Read a u32 from the start of a byte slice.
pub fn read_u32(le: bool, raw: &[u8]) -> (r: u32)
    requires
        raw@.len() >= 4,
    ensures
        r == spec_read_u32(le, raw@),
{
    if le {
        (raw[3] as u32) * 0x1000000 + (raw[2] as u32) * 0x10000 + (raw[1] as u32) * 0x100 + (
        raw[0] as u32)
    } else {
        (raw[0] as u32) * 0x1000000 + (raw[1] as u32) * 0x10000 + (raw[2] as u32) * 0x100 + (
        raw[3] as u32)
    }
}

/// Read an i32 from the start of a byte slice.
pub fn read_i32(le: bool, raw: &[u8]) -> (r: i32)
    requires
        raw@.len() >= 4,
    ensures
        r == spec_read_i32(le, raw@),
{
    let u: i64 = read_u32(le, raw) as i64;
    if u >= 0x80000000 {
        (u - 0x100000000) as i32
    } else {
        u as i32
    }
}

/// Read a u64 from the start of a byte slice: the IEEE-754 bit pattern of
/// a stored double-precision element.
pub fn read_u64(le: bool, raw: &[u8]) -> (r: u64)
    requires
        raw@.len() >= 8,
    ensures
        r == spec_read_u64(le, raw@),
{
    let lo = slice_subrange(raw, 0, 4);
    let hi = slice_subrange(raw, 4, 8);
    if le {
        (read_u32(le, hi) as u64) * 0x100000000 + (read_u32(le, lo) as u64)
    } else {
        (read_u32(le, lo) as u64) * 0x100000000 + (read_u32(le, hi) as u64)
    }
}

/// Read an unsigned rational (numerator, then denominator) from the start
/// of a byte slice.
pub fn read_urational(le: bool, raw: &[u8]) -> (r: URational)
    requires
        raw@.len() >= 8,
    ensures
        r == spec_read_urational(le, raw@),
{
    let n = read_u32(le, slice_subrange(raw, 0, 4));
    let d = read_u32(le, slice_subrange(raw, 4, 8));
    URational { numerator: n, denominator: d }
}

/// Read a signed rational (numerator, then denominator) from the start of
/// a byte slice.
pub fn read_irational(le: bool, raw: &[u8]) -> (r: IRational)
    requires
        raw@.len() >= 8,
    ensures
        r == spec_read_irational(le, raw@),
{
    let n = read_i32(le, slice_subrange(raw, 0, 4));
    let d = read_i32(le, slice_subrange(raw, 4, 8));
    IRational { numerator: n, denominator: d }
}

/// The sequence of `count` i8 elements at the start of `s`.
pub open spec fn spec_read_i8_array(count: nat, s: Seq<u8>) -> Seq<i8> {
    Seq::new(count, |i: int| spec_read_i8(s[i]))
}

/// Read an array of i8 elements from the start of a byte slice.
pub fn read_i8_array(count: u32, raw: &[u8]) -> (a: Vec<i8>)
    requires
        raw@.len() >= count,
    ensures
        a@ == spec_read_i8_array(count as nat, raw@),
{
    let n: usize = raw.len();
    let mut a: Vec<i8> = Vec::new();
    let mut i: usize = 0;
    while i < count as usize
        invariant
            i <= count,
            n == raw@.len(),
            raw@.len() >= count,
            a@.len() == i,
            forall|j: int| 0 <= j < i ==> a@[j] == spec_read_i8(raw@[j]),
        decreases count - i,
    {
        a.push(read_i8(raw[i]));
        i = i + 1;
    }
    proof {
        assert(a@ =~= spec_read_i8_array(count as nat, raw@));
    }
    a
}

/// The sequence of `count` u16 elements at the start of `s`, two bytes
/// each, per the endianness flag.
pub open spec fn spec_read_u16_array(le: bool, count: nat, s: Seq<u8>) -> Seq<u16> {
    Seq::new(count, |i: int| spec_read_u16(le, s.subrange(2 * i, 2 * i + 2)))
}

/// Read an array of u16 elements from the start of a byte slice.
pub fn read_u16_array(le: bool, count: u32, raw: &[u8]) -> (a: Vec<u16>)
    requires
        raw@.len() >= count * 2,
    ensures
        a@ == spec_read_u16_array(le, count as nat, raw@),
{
    let n: usize = raw.len();
    let mut a: Vec<u16> = Vec::new();
    let mut offset: usize = 0;
    let mut i: usize = 0;
    while i < count as usize
        invariant
            i <= count,
            offset == 2 * i,
            n == raw@.len(),
            raw@.len() >= count * 2,
            a@.len() == i,
            forall|j: int|
                0 <= j < i ==> a@[j] == spec_read_u16(le, raw@.subrange(2 * j, 2 * j + 2)),
        decreases count - i,
    {
        a.push(read_u16(le, slice_subrange(raw, offset, offset + 2)));
        offset = offset + 2;
        i = i + 1;
    }
    proof {
        assert(a@ =~= spec_read_u16_array(le, count as nat, raw@));
    }
    a
}

/// The sequence of `count` i16 elements at the start of `s`.
pub open spec fn spec_read_i16_array(le: bool, count: nat, s: Seq<u8>) -> Seq<i16> {
    Seq::new(count, |i: int| spec_read_i16(le, s.subrange(2 * i, 2 * i + 2)))
}

/// Read an array of i16 elements from the start of a byte slice.
pub fn read_i16_array(le: bool, count: u32, raw: &[u8]) -> (a: Vec<i16>)
    requires
        raw@.len() >= count * 2,
    ensures
        a@ == spec_read_i16_array(le, count as nat, raw@),
{
    let n: usize = raw.len();
    let mut a: Vec<i16> = Vec::new();
    let mut offset: usize = 0;
    let mut i: usize = 0;
    while i < count as usize
        invariant
            i <= count,
            offset == 2 * i,
            n == raw@.len(),
            raw@.len() >= count * 2,
            a@.len() == i,
            forall|j: int|
                0 <= j < i ==> a@[j] == spec_read_i16(le, raw@.subrange(2 * j, 2 * j + 2)),
        decreases count - i,
    {
        a.push(read_i16(le, slice_subrange(raw, offset, offset + 2)));
        offset = offset + 2;
        i = i + 1;
    }
    proof {
        assert(a@ =~= spec_read_i16_array(le, count as nat, raw@));
    }
    a
}

/// The sequence of `count` u32 elements at the start of `s`.
pub open spec fn spec_read_u32_array(le: bool, count: nat, s: Seq<u8>) -> Seq<u32> {
    Seq::new(count, |i: int| spec_read_u32(le, s.subrange(4 * i, 4 * i + 4)))
}

/// Read an array of u32 elements from the start of a byte slice.
pub fn read_u32_array(le: bool, count: u32, raw: &[u8]) -> (a: Vec<u32>)
    requires
        raw@.len() >= count * 4,
    ensures
        a@ == spec_read_u32_array(le, count as nat, raw@),
{
    let n: usize = raw.len();
    let mut a: Vec<u32> = Vec::new();
    let mut offset: usize = 0;
    let mut i: usize = 0;
    while i < count as usize
        invariant
            i <= count,
            offset == 4 * i,
            n == raw@.len(),
            raw@.len() >= count * 4,
            a@.len() == i,
            forall|j: int|
                0 <= j < i ==> a@[j] == spec_read_u32(le, raw@.subrange(4 * j, 4 * j + 4)),
        decreases count - i,
    {
        a.push(read_u32(le, slice_subrange(raw, offset, offset + 4)));
        offset = offset + 4;
        i = i + 1;
    }
    proof {
        assert(a@ =~= spec_read_u32_array(le, count as nat, raw@));
    }
    a
}

/// The sequence of `count` i32 elements at the start of `s`.
pub open spec fn spec_read_i32_array(le: bool, count: nat, s: Seq<u8>) -> Seq<i32> {
    Seq::new(count, |i: int| spec_read_i32(le, s.subrange(4 * i, 4 * i + 4)))
}

/// Read an array of i32 elements from the start of a byte slice.
pub fn read_i32_array(le: bool, count: u32, raw: &[u8]) -> (a: Vec<i32>)
    requires
        raw@.len() >= count * 4,
    ensures
        a@ == spec_read_i32_array(le, count as nat, raw@),
{
    let n: usize = raw.len();
    let mut a: Vec<i32> = Vec::new();
    let mut offset: usize = 0;
    let mut i: usize = 0;
    while i < count as usize
        invariant
            i <= count,
            offset == 4 * i,
            n == raw@.len(),
            raw@.len() >= count * 4,
            a@.len() == i,
            forall|j: int|
                0 <= j < i ==> a@[j] == spec_read_i32(le, raw@.subrange(4 * j, 4 * j + 4)),
        decreases count - i,
    {
        a.push(read_i32(le, slice_subrange(raw, offset, offset + 4)));
        offset = offset + 4;
        i = i + 1;
    }
    proof {
        assert(a@ =~= spec_read_i32_array(le, count as nat, raw@));
    }
    a
}

/// The sequence of `count` single-precision bit patterns at the start of
/// `s`, four bytes each, per the endianness flag.
pub open spec fn spec_read_f32_bits_array(le: bool, count: nat, s: Seq<u8>) -> Seq<u32> {
    spec_read_u32_array(le, count, s)
}

/// Read an array of IEEE-754 single-precision bit patterns from the start
/// of a byte slice.
pub fn read_f32_bits_array(le: bool, count: u32, raw: &[u8]) -> (a: Vec<u32>)
    requires
        raw@.len() >= count * 4,
    ensures
        a@ == spec_read_f32_bits_array(le, count as nat, raw@),
{
    read_u32_array(le, count, raw)
}

/// The sequence of `count` double-precision bit patterns at the start of
/// `s`, eight bytes each, per the endianness flag.
pub open spec fn spec_read_f64_bits_array(le: bool, count: nat, s: Seq<u8>) -> Seq<u64> {
    Seq::new(count, |i: int| spec_read_u64(le, s.subrange(8 * i, 8 * i + 8)))
}

/// Read an array of IEEE-754 double-precision bit patterns from the start
/// of a byte slice.
pub fn read_f64_bits_array(le: bool, count: u32, raw: &[u8]) -> (a: Vec<u64>)
    requires
        raw@.len() >= count * 8,
    ensures
        a@ == spec_read_f64_bits_array(le, count as nat, raw@),
{
    let n: usize = raw.len();
    let mut a: Vec<u64> = Vec::new();
    let mut offset: usize = 0;
    let mut i: usize = 0;
    while i < count as usize
        invariant
            i <= count,
            offset == 8 * i,
            n == raw@.len(),
            raw@.len() >= count * 8,
            a@.len() == i,
            forall|j: int|
                0 <= j < i ==> a@[j] == spec_read_u64(le, raw@.subrange(8 * j, 8 * j + 8)),
        decreases count - i,
    {
        a.push(read_u64(le, slice_subrange(raw, offset, offset + 8)));
        offset = offset + 8;
        i = i + 1;
    }
    proof {
        assert(a@ =~= spec_read_f64_bits_array(le, count as nat, raw@));
    }
    a
}

/// The sequence of `count` unsigned rationals at the start of `s`.
pub open spec fn spec_read_urational_array(le: bool, count: nat, s: Seq<u8>) -> Seq<URational> {
    Seq::new(count, |i: int| spec_read_urational(le, s.subrange(8 * i, 8 * i + 8)))
}

/// Read an array of unsigned rationals from the start of a byte slice.
pub fn read_urational_array(le: bool, count: u32, raw: &[u8]) -> (a: Vec<URational>)
    requires
        raw@.len() >= count * 8,
    ensures
        a@ == spec_read_urational_array(le, count as nat, raw@),
{
    let n: usize = raw.len();
    let mut a: Vec<URational> = Vec::new();
    let mut offset: usize = 0;
    let mut i: usize = 0;
    while i < count as usize
        invariant
            i <= count,
            offset == 8 * i,
            n == raw@.len(),
            raw@.len() >= count * 8,
            a@.len() == i,
            forall|j: int|
                0 <= j < i ==> a@[j] == spec_read_urational(le, raw@.subrange(8 * j, 8 * j + 8)),
        decreases count - i,
    {
        a.push(read_urational(le, slice_subrange(raw, offset, offset + 8)));
        offset = offset + 8;
        i = i + 1;
    }
    proof {
        assert(a@ =~= spec_read_urational_array(le, count as nat, raw@));
    }
    a
}

/// The sequence of `count` signed rationals at the start of `s`.
pub open spec fn spec_read_irational_array(le: bool, count: nat, s: Seq<u8>) -> Seq<IRational> {
    Seq::new(count, |i: int| spec_read_irational(le, s.subrange(8 * i, 8 * i + 8)))
}

/// Read an array of signed rationals from the start of a byte slice.
pub fn read_irational_array(le: bool, count: u32, raw: &[u8]) -> (a: Vec<IRational>)
    requires
        raw@.len() >= count * 8,
    ensures
        a@ == spec_read_irational_array(le, count as nat, raw@),
{
    let n: usize = raw.len();
    let mut a: Vec<IRational> = Vec::new();
    let mut offset: usize = 0;
    let mut i: usize = 0;
    while i < count as usize
        invariant
            i <= count,
            offset == 8 * i,
            n == raw@.len(),
            raw@.len() >= count * 8,
            a@.len() == i,
            forall|j: int|
                0 <= j < i ==> a@[j] == spec_read_irational(le, raw@.subrange(8 * j, 8 * j + 8)),
        decreases count - i,
    {
        a.push(read_irational(le, slice_subrange(raw, offset, offset + 8)));
        offset = offset + 8;
        i = i + 1;
    }
    proof {
        assert(a@ =~= spec_read_irational_array(le, count as nat, raw@));
    }
    a
}

/// Endianness symmetry: reading four bytes little-endian gives the same
/// value as reading the byte-reversed four big-endian, for every input.
pub proof fn lemma_endianness_symmetry(b: Seq<u8>)
    requires
        b.len() == 4,
    ensures
        spec_read_u32(true, b) == spec_read_u32(false, seq![b[3], b[2], b[1], b[0]]),
{
}

} // verus!
