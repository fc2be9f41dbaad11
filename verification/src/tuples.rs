//! Tuples: construction, destructuring, pattern matching, and returning
//! several values at once.

use vstd::prelude::*;

verus! {

/// Exchanges its two arguments: the result holds `b` first and `a` second,
/// whatever their types.
pub fn swap<A, B>(a: A, b: B) -> (r: (B, A))
    ensures
        r.0 == b,
        r.1 == a,
{
    (b, a)
}

/// A function can hand several values back at once by returning a tuple;
/// here the pair `(1, 2)` comes back exchanged, proved to be `(2, 1)`.
pub fn return_multiple_values_with_tuple() -> (r: (i64, i64))
    ensures
        r == (2i64, 1i64),
{
    let a: i64 = 1;
    let b: i64 = 2;
    swap(a, b)
}

/// Tuple demonstration: builds `(1, 2, 3)`, reads it back by field access,
/// by destructuring and by pattern matching, and exchanges a pair. Returns
/// the triple read by fields, the triple read by pattern, and the
/// exchanged pair, each pinned exactly.
pub fn tuples() -> (r: ((i64, i64, i64), (i64, i64, i64), (i64, i64)))
    ensures
        r.0 == (1i64, 2i64, 3i64),
        r.1 == (1i64, 2i64, 3i64),
        r.2 == (2i64, 1i64),
{
    let tuple: (i64, i64, i64) = (1, 2, 3);
    let by_field = (tuple.0, tuple.1, tuple.2);

    let (one, two, three) = tuple;

    let by_pattern = match (one, two, three) {
        (x, y, z) => (x, y, z),
    };

    let exchanged = return_multiple_values_with_tuple();

    (by_field, by_pattern, exchanged)
}

} // verus!
