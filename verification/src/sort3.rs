use vstd::prelude::*;
use crate::indexes::N3Index;

verus! {

/// The smaller of two integers.
pub open spec fn imin(a: int, b: int) -> int {
    if a <= b {
        a
    } else {
        b
    }
}

/// The larger of two integers.
pub open spec fn imax(a: int, b: int) -> int {
    if a <= b {
        b
    } else {
        a
    }
}

/// The values `x`, `y`, `z` arranged in ascending order.  The middle value
/// is recovered from the sum, so the result is a rearrangement of the
/// inputs.
pub open spec fn key3(x: int, y: int, z: int) -> (int, int, int) {
    let lo = imin(x, imin(y, z));
    let hi = imax(x, imax(y, z));
    (lo, x + y + z - lo - hi, hi)
}

/// `key3` yields an ascending rearrangement of its inputs, and its
/// components sum to the inputs' sum.
pub proof fn lemma_key3_sorted(x: int, y: int, z: int)
    ensures
        key3(x, y, z).0 <= key3(x, y, z).1 <= key3(x, y, z).2,
        key3(x, y, z).0 + key3(x, y, z).1 + key3(x, y, z).2 == x + y + z,
{
}

/// The canonical face key ignores the order in which the three node values
/// are presented: `key3` is invariant under every permutation of its
/// arguments.
pub proof fn lemma_key3_symmetric(x: int, y: int, z: int)
    ensures
        key3(x, y, z) == key3(x, z, y),
        key3(x, y, z) == key3(y, x, z),
        key3(x, y, z) == key3(y, z, x),
        key3(x, y, z) == key3(z, x, y),
        key3(x, y, z) == key3(z, y, x),
{
}

/// Sorts three node indices in ascending order of their underlying values.
pub fn sort_3(p1: N3Index, p2: N3Index, p3: N3Index) -> (r: (N3Index, N3Index, N3Index))
    ensures
        r.0.0 as int == key3(p1.0 as int, p2.0 as int, p3.0 as int).0,
        r.1.0 as int == key3(p1.0 as int, p2.0 as int, p3.0 as int).1,
        r.2.0 as int == key3(p1.0 as int, p2.0 as int, p3.0 as int).2,
{
    let (a, b) = if p1.0 <= p2.0 {
        (p1, p2)
    } else {
        (p2, p1)
    };
    let (a, c) = if a.0 <= p3.0 {
        (a, p3)
    } else {
        (p3, a)
    };
    let (b, c) = if b.0 <= c.0 {
        (b, c)
    } else {
        (c, b)
    };
    (a, b, c)
}

} // verus!
