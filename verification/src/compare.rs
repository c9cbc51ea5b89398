//! Approximate equality of IEEE-754 doubles given as bit patterns.

use vstd::prelude::*;

use crate::bits::abs_bits;
use crate::bits::lt_bits;
use crate::bits::sub_bits;

verus! {

/// Bit pattern of the IEEE-754 double 1.0e-8, the absolute tolerance.
pub const TOLERANCE_BITS: u64 = 0x3E45_798E_E230_8C3A;

/// Whether `left` and `right` agree to within the tolerance:
/// `|left - right| < 1.0e-8`, in IEEE-754 double arithmetic.
pub open spec fn spec_almost_eq(left: u64, right: u64) -> bool {
    lt_bits(abs_bits(sub_bits(left, right)), TOLERANCE_BITS)
}

/// Tests `|left - right| < 1.0e-8` on the doubles with these bit patterns
/// (false whenever the difference is a NaN).
pub fn almost_eq(left: u64, right: u64) -> (r: bool)
    ensures
        r == spec_almost_eq(left, right),
{
    let difference: u64 = crate::bits::fsub(left, right);
    crate::bits::flt(crate::bits::fabs(difference), TOLERANCE_BITS)
}

/// Tests componentwise approximate equality of two equally long vectors of
/// bit patterns.
pub fn almost_equals(lhs: &Vec<u64>, rhs: &Vec<u64>) -> (r: bool)
    requires
        lhs@.len() == rhs@.len(),
    ensures
        r == (forall|i: int| 0 <= i < lhs@.len() ==> spec_almost_eq(lhs@[i], rhs@[i])),
{
    let mut index: usize = 0;
    while index < lhs.len()
        invariant
            lhs@.len() == rhs@.len(),
            0 <= index <= lhs@.len(),
            forall|i: int| 0 <= i < index ==> spec_almost_eq(lhs@[i], rhs@[i]),
        decreases lhs@.len() - index,
    {
        if !almost_eq(lhs[index], rhs[index]) {
            return false;
        }
        index += 1;
    }
    true
}

} // verus!
