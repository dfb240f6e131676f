//! Measures.

use vstd::prelude::*;
use vstd::string::StringExecFns;
use crate::text::{decimal_string, signed_decimal};

verus! {

/// A weight in pounds and ounces.
#[derive(Debug, Clone, Copy, PartialEq, Eq, Structural)]
pub struct Weight {
    pub lbs: isize,
    pub oz: isize,
}

impl Default for Weight {
    fn default() -> (r: Weight)
        ensures
            r == (Weight { lbs: 0, oz: 0 }),
    {
        Weight { lbs: 0, oz: 0 }
    }
}

/// How a weight is written.
pub open spec fn weight_text(weight: Weight) -> Seq<char> {
    signed_decimal(weight.lbs as int) + " lbs, "@ + signed_decimal(weight.oz as int) + " oz"@
}

impl Weight {
    pub fn new(lbs: isize, oz: isize) -> (r: Weight)
        ensures
            r == (Weight { lbs, oz }),
    {
        Weight { lbs, oz }
    }

    pub fn to_string(&self) -> (r: String)
        ensures
            r@ == weight_text(*self),
    {
        let mut out = decimal_string(self.lbs);
        out.append(" lbs, ");
        out.append(decimal_string(self.oz).as_str());
        out.append(" oz");
        out
    }
}

} // verus!
