//! A small integer utility kept from the crate's first version.

use vstd::prelude::*;

verus! {

/// The sum of two integers.
pub open spec fn sum_of(a: int, b: int) -> int {
    a + b
}

/// Adds two signed integers; the sum must fit in an `i64`.
pub fn add(a: i64, b: i64) -> (r: i64)
    requires
        i64::MIN <= sum_of(a as int, b as int) <= i64::MAX,
    ensures
        r as int == sum_of(a as int, b as int),
{
    a + b
}

/// Adding is commutative: swapping the arguments gives the same sum.
pub proof fn lemma_add_commutative(a: i64, b: i64)
    requires
        i64::MIN <= sum_of(a as int, b as int) <= i64::MAX,
    ensures
        i64::MIN <= sum_of(b as int, a as int) <= i64::MAX,
        sum_of(a as int, b as int) == sum_of(b as int, a as int),
{
}

} // verus!
