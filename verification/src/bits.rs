//! Single bits of a byte.

use vstd::prelude::*;

verus! {

/// Whether the bit of the given weight (a power of two) is set in a byte.
pub open spec fn has_bit(value: u8, weight: int) -> bool {
    (value as int / weight) % 2 == 1
}

/// The weight of a bit that is set, zero for one that is clear.
pub open spec fn bit_value(set: bool, weight: int) -> int {
    if set {
        weight
    } else {
        0
    }
}

} // verus!
