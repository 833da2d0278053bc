//! Rendering of value arrays as comma-separated readable strings.

use crate::ifdformat::numarray_to_string;
use crate::ifdformat::spec_join_csv;
use crate::numfmt::dec_i64;
use crate::numfmt::dec_u128;
use crate::numfmt::spec_idec;
use crate::numfmt::spec_udec;
use crate::rational::spec_irational_str;
use crate::rational::spec_urational_str;
use crate::rational::IRational;
use crate::rational::URational;
use vstd::prelude::*;

verus! {


/// The readable joined form of a byte array.
pub open spec fn spec_csv_u8(a: Seq<u8>) -> Seq<char> {
    spec_join_csv(a.map_values(|x: u8| spec_udec(x as nat)))
}

/// The readable joined form of an i8 array.
pub open spec fn spec_csv_i8(a: Seq<i8>) -> Seq<char> {
    spec_join_csv(a.map_values(|x: i8| spec_idec(x as int)))
}

/// The readable joined form of a u16 array.
pub open spec fn spec_csv_u16(a: Seq<u16>) -> Seq<char> {
    spec_join_csv(a.map_values(|x: u16| spec_udec(x as nat)))
}

/// The readable joined form of an i16 array.
pub open spec fn spec_csv_i16(a: Seq<i16>) -> Seq<char> {
    spec_join_csv(a.map_values(|x: i16| spec_idec(x as int)))
}

/// The readable joined form of a u32 array.
pub open spec fn spec_csv_u32(a: Seq<u32>) -> Seq<char> {
    spec_join_csv(a.map_values(|x: u32| spec_udec(x as nat)))
}

/// The readable joined form of an i32 array.
pub open spec fn spec_csv_i32(a: Seq<i32>) -> Seq<char> {
    spec_join_csv(a.map_values(|x: i32| spec_idec(x as int)))
}

/// The readable joined form of a u64 array.
pub open spec fn spec_csv_u64(a: Seq<u64>) -> Seq<char> {
    spec_join_csv(a.map_values(|x: u64| spec_udec(x as nat)))
}

/// The readable joined form of an unsigned rational array.
pub open spec fn spec_csv_urational(a: Seq<URational>) -> Seq<char> {
    spec_join_csv(a.map_values(|x: URational| spec_urational_str(x.numerator as nat, x.denominator as nat)))
}

/// The readable joined form of a signed rational array.
pub open spec fn spec_csv_irational(a: Seq<IRational>) -> Seq<char> {
    spec_join_csv(a.map_values(|x: IRational| spec_irational_str(x.numerator as int, x.denominator as int)))
}

/// A collection whose elements render to one comma-space-separated string.
pub trait ToCsv {
    /// The joined readable string this collection renders to.
    spec fn csv_spec(&self) -> Seq<char>;

    /// Render the collection as its elements joined by `, `.
    fn to_csv(&self) -> (s: String)
        ensures
            s@ == self.csv_spec(),
    ;
}

impl ToCsv for Vec<u8> {
    open spec fn csv_spec(&self) -> Seq<char> {
        spec_csv_u8(self@)
    }

    fn to_csv(&self) -> (s: String)
        ensures
            s@ == self.csv_spec(),
    {
        let mut items: Vec<String> = Vec::new();
        let mut i: usize = 0;
        while i < self.len()
            invariant
                i <= self@.len(),
                items@.len() == i,
                forall|j: int| 0 <= j < i ==> #[trigger] items@[j]@ == spec_udec(self@[j] as nat),
            decreases self@.len() - i,
        {
            items.push(dec_u128(self[i] as u128));
            i = i + 1;
        }
        proof {
            assert(items.deep_view() =~~= self@.map_values(|x: u8| spec_udec(x as nat)));
        }
        numarray_to_string(&items)
    }
}

impl ToCsv for Vec<i8> {
    open spec fn csv_spec(&self) -> Seq<char> {
        spec_csv_i8(self@)
    }

    fn to_csv(&self) -> (s: String)
        ensures
            s@ == self.csv_spec(),
    {
        let mut items: Vec<String> = Vec::new();
        let mut i: usize = 0;
        while i < self.len()
            invariant
                i <= self@.len(),
                items@.len() == i,
                forall|j: int| 0 <= j < i ==> #[trigger] items@[j]@ == {
                    let x: i8 = self@[j];
                    spec_idec(x as int)
                },
            decreases self@.len() - i,
        {
            let x: i8 = self[i];
            items.push(dec_i64(x as i64));
            i = i + 1;
        }
        proof {
            assert(items.deep_view() =~~= self@.map_values(|x: i8| spec_idec(x as int)));
        }
        numarray_to_string(&items)
    }
}

impl ToCsv for Vec<u16> {
    open spec fn csv_spec(&self) -> Seq<char> {
        spec_csv_u16(self@)
    }

    fn to_csv(&self) -> (s: String)
        ensures
            s@ == self.csv_spec(),
    {
        let mut items: Vec<String> = Vec::new();
        let mut i: usize = 0;
        while i < self.len()
            invariant
                i <= self@.len(),
                items@.len() == i,
                forall|j: int| 0 <= j < i ==> #[trigger] items@[j]@ == {
                    let x: u16 = self@[j];
                    spec_udec(x as nat)
                },
            decreases self@.len() - i,
        {
            let x: u16 = self[i];
            items.push(dec_u128(x as u128));
            i = i + 1;
        }
        proof {
            assert(items.deep_view() =~~= self@.map_values(|x: u16| spec_udec(x as nat)));
        }
        numarray_to_string(&items)
    }
}

impl ToCsv for Vec<i16> {
    open spec fn csv_spec(&self) -> Seq<char> {
        spec_csv_i16(self@)
    }

    fn to_csv(&self) -> (s: String)
        ensures
            s@ == self.csv_spec(),
    {
        let mut items: Vec<String> = Vec::new();
        let mut i: usize = 0;
        while i < self.len()
            invariant
                i <= self@.len(),
                items@.len() == i,
                forall|j: int| 0 <= j < i ==> #[trigger] items@[j]@ == {
                    let x: i16 = self@[j];
                    spec_idec(x as int)
                },
            decreases self@.len() - i,
        {
            let x: i16 = self[i];
            items.push(dec_i64(x as i64));
            i = i + 1;
        }
        proof {
            assert(items.deep_view() =~~= self@.map_values(|x: i16| spec_idec(x as int)));
        }
        numarray_to_string(&items)
    }
}

impl ToCsv for Vec<u32> {
    open spec fn csv_spec(&self) -> Seq<char> {
        spec_csv_u32(self@)
    }

    fn to_csv(&self) -> (s: String)
        ensures
            s@ == self.csv_spec(),
    {
        let mut items: Vec<String> = Vec::new();
        let mut i: usize = 0;
        while i < self.len()
            invariant
                i <= self@.len(),
                items@.len() == i,
                forall|j: int| 0 <= j < i ==> #[trigger] items@[j]@ == {
                    let x: u32 = self@[j];
                    spec_udec(x as nat)
                },
            decreases self@.len() - i,
        {
            let x: u32 = self[i];
            items.push(dec_u128(x as u128));
            i = i + 1;
        }
        proof {
            assert(items.deep_view() =~~= self@.map_values(|x: u32| spec_udec(x as nat)));
        }
        numarray_to_string(&items)
    }
}

impl ToCsv for Vec<i32> {
    open spec fn csv_spec(&self) -> Seq<char> {
        spec_csv_i32(self@)
    }

    fn to_csv(&self) -> (s: String)
        ensures
            s@ == self.csv_spec(),
    {
        let mut items: Vec<String> = Vec::new();
        let mut i: usize = 0;
        while i < self.len()
            invariant
                i <= self@.len(),
                items@.len() == i,
                forall|j: int| 0 <= j < i ==> #[trigger] items@[j]@ == {
                    let x: i32 = self@[j];
                    spec_idec(x as int)
                },
            decreases self@.len() - i,
        {
            let x: i32 = self[i];
            items.push(dec_i64(x as i64));
            i = i + 1;
        }
        proof {
            assert(items.deep_view() =~~= self@.map_values(|x: i32| spec_idec(x as int)));
        }
        numarray_to_string(&items)
    }
}

impl ToCsv for Vec<u64> {
    open spec fn csv_spec(&self) -> Seq<char> {
        spec_csv_u64(self@)
    }

    fn to_csv(&self) -> (s: String)
        ensures
            s@ == self.csv_spec(),
    {
        let mut items: Vec<String> = Vec::new();
        let mut i: usize = 0;
        while i < self.len()
            invariant
                i <= self@.len(),
                items@.len() == i,
                forall|j: int| 0 <= j < i ==> #[trigger] items@[j]@ == {
                    let x: u64 = self@[j];
                    spec_udec(x as nat)
                },
            decreases self@.len() - i,
        {
            let x: u64 = self[i];
            items.push(dec_u128(x as u128));
            i = i + 1;
        }
        proof {
            assert(items.deep_view() =~~= self@.map_values(|x: u64| spec_udec(x as nat)));
        }
        numarray_to_string(&items)
    }
}

impl ToCsv for Vec<URational> {
    open spec fn csv_spec(&self) -> Seq<char> {
        spec_csv_urational(self@)
    }

    fn to_csv(&self) -> (s: String)
        ensures
            s@ == self.csv_spec(),
    {
        let mut items: Vec<String> = Vec::new();
        let mut i: usize = 0;
        while i < self.len()
            invariant
                i <= self@.len(),
                items@.len() == i,
                forall|j: int| 0 <= j < i ==> #[trigger] items@[j]@ == {
                    let x: URational = self@[j];
                    spec_urational_str(x.numerator as nat, x.denominator as nat)
                },
            decreases self@.len() - i,
        {
            let x: URational = self[i];
            items.push(x.display());
            i = i + 1;
        }
        proof {
            assert(items.deep_view() =~~= self@.map_values(|x: URational| spec_urational_str(x.numerator as nat, x.denominator as nat)));
        }
        numarray_to_string(&items)
    }
}

impl ToCsv for Vec<IRational> {
    open spec fn csv_spec(&self) -> Seq<char> {
        spec_csv_irational(self@)
    }

    fn to_csv(&self) -> (s: String)
        ensures
            s@ == self.csv_spec(),
    {
        let mut items: Vec<String> = Vec::new();
        let mut i: usize = 0;
        while i < self.len()
            invariant
                i <= self@.len(),
                items@.len() == i,
                forall|j: int| 0 <= j < i ==> #[trigger] items@[j]@ == {
                    let x: IRational = self@[j];
                    spec_irational_str(x.numerator as int, x.denominator as int)
                },
            decreases self@.len() - i,
        {
            let x: IRational = self[i];
            items.push(x.display());
            i = i + 1;
        }
        proof {
            assert(items.deep_view() =~~= self@.map_values(|x: IRational| spec_irational_str(x.numerator as int, x.denominator as int)));
        }
        numarray_to_string(&items)
    }
}

impl ToCsv for [u8] {
    open spec fn csv_spec(&self) -> Seq<char> {
        spec_csv_u8(self@)
    }

    fn to_csv(&self) -> (s: String)
        ensures
            s@ == self.csv_spec(),
    {
        let mut items: Vec<String> = Vec::new();
        let mut i: usize = 0;
        while i < self.len()
            invariant
                i <= self@.len(),
                items@.len() == i,
                forall|j: int| 0 <= j < i ==> #[trigger] items@[j]@ == {
                    let x: u8 = self@[j];
                    spec_udec(x as nat)
                },
            decreases self@.len() - i,
        {
            let x: u8 = self[i];
            items.push(dec_u128(x as u128));
            i = i + 1;
        }
        proof {
            assert(items.deep_view() =~~= self@.map_values(|x: u8| spec_udec(x as nat)));
        }
        numarray_to_string(&items)
    }
}

impl ToCsv for [i32] {
    open spec fn csv_spec(&self) -> Seq<char> {
        spec_csv_i32(self@)
    }

    fn to_csv(&self) -> (s: String)
        ensures
            s@ == self.csv_spec(),
    {
        let mut items: Vec<String> = Vec::new();
        let mut i: usize = 0;
        while i < self.len()
            invariant
                i <= self@.len(),
                items@.len() == i,
                forall|j: int| 0 <= j < i ==> #[trigger] items@[j]@ == {
                    let x: i32 = self@[j];
                    spec_idec(x as int)
                },
            decreases self@.len() - i,
        {
            let x: i32 = self[i];
            items.push(dec_i64(x as i64));
            i = i + 1;
        }
        proof {
            assert(items.deep_view() =~~= self@.map_values(|x: i32| spec_idec(x as int)));
        }
        numarray_to_string(&items)
    }
}

} // verus!
