//! Room for running totals: a sum of at most `usize::MAX` values of 64 bits
//! fits 128 bits.

use vstd::prelude::*;

verus! {

/// The largest value of 64 bits.
pub open spec fn max64() -> nat {
    0xffff_ffff_ffff_ffff
}

/// A total of `count` values of at most `each` has room for one more:
/// `count + 1` such values are at most the square of the largest value of
/// 64 bits, which fits 128 bits.
pub proof fn lemma_total_has_room(count: nat, each: nat)
    requires
        count < max64(),
        each <= max64(),
    ensures
        (count + 1) * each == count * each + each,
        (count + 1) * each <= max64() * max64(),
        max64() * max64() <= u128::MAX,
{
    assert((count + 1) * each == count * each + each && (count + 1) * each
        <= 0xffff_ffff_ffff_ffff * 0xffff_ffff_ffff_ffff) by (nonlinear_arith)
        requires
            count + 1 <= 0xffff_ffff_ffff_ffff,
            each <= 0xffff_ffff_ffff_ffff,
    ;
}

} // verus!
