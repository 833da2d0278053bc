//! The TIFF rational types: numerator/denominator pairs.

use crate::numfmt::spec_idec;
use crate::numfmt::spec_udec;
use crate::numfmt::dec_i64;
use crate::numfmt::dec_u128;
use vstd::prelude::*;
use vstd::string::*;

verus! {

/// The readable form of an unsigned rational: numerator, `/`, denominator.
pub open spec fn spec_urational_str(numerator: nat, denominator: nat) -> Seq<char> {
    spec_udec(numerator) + seq!['/'] + spec_udec(denominator)
}

/// The readable form of a signed rational: numerator, `/`, denominator.
pub open spec fn spec_irational_str(numerator: int, denominator: int) -> Seq<char> {
    spec_idec(numerator) + seq!['/'] + spec_idec(denominator)
}

/// A TIFF unsigned rational number: an explicit numerator and denominator
/// pair.  A zero denominator is a representable value (the quotient it
/// stands for is IEEE infinity or NaN), not an error.
#[derive(Copy, Clone, Debug, PartialEq, Eq, Structural)]
pub struct URational {
    pub numerator: u32,
    pub denominator: u32,
}

/// A TIFF signed rational number: an explicit numerator and denominator
/// pair, both signed.
#[derive(Copy, Clone, Debug, PartialEq, Eq, Structural)]
pub struct IRational {
    pub numerator: i32,
    pub denominator: i32,
}

impl URational {
    /// The `numerator/denominator` string, e.g. `1/125`.
    pub fn display(&self) -> (s: String)
        ensures
            s@ == spec_urational_str(self.numerator as nat, self.denominator as nat),
    {
        proof {
            reveal_strlit("/");
        }
        let mut s = dec_u128(self.numerator as u128);
        s.append("/");
        let d = dec_u128(self.denominator as u128);
        s.append(d.as_str());
        s
    }
}

impl IRational {
    /// The `numerator/denominator` string, e.g. `-1/8`.
    pub fn display(&self) -> (s: String)
        ensures
            s@ == spec_irational_str(self.numerator as int, self.denominator as int),
    {
        proof {
            reveal_strlit("/");
        }
        let mut s = dec_i64(self.numerator as i64);
        s.append("/");
        let d = dec_i64(self.denominator as i64);
        s.append(d.as_str());
        s
    }
}

} // verus!
