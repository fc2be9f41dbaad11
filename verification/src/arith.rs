//! Checked division.
//!
//! Dividing by zero is a fatal fault at runtime; the checked form returns
//! `None` instead of faulting, and the contract says exactly when.

use vstd::prelude::*;

verus! {

/// Division that can never fault: returns `Some(n / d)` exactly when the
/// divisor is non-zero, and `None` exactly when it is zero.
pub fn checked_div(n: u64, d: u64) -> (r: Option<u64>)
    ensures
        d != 0 ==> r == Some(n / d),
        d == 0 ==> r is None,
{
    if d == 0 {
        None
    } else {
        Some(n / d)
    }
}

/// Builds the operands `1` and `0` three ways — as plain literals, by
/// shadowing (`zero` rebound to `one - 1`), and through deferred closure
/// calls — and attempts the division each time through [`checked_div`].
/// An unchecked `1 / 0` would be a fatal fault; the checked form instead
/// reports the fault as `None`, and the contract proves that every one of
/// the three attempts does so.
pub fn divide_by_zero_help() -> (r: (Option<u64>, Option<u64>, Option<u64>))
    ensures
        r.0 is None,
        r.1 is None,
        r.2 is None,
{
    let one: u64 = 1;
    let zero: u64 = 0;
    let first = checked_div(one, zero);

    let one: u64 = 1;
    let zero: u64 = one - 1;
    let second = checked_div(one, zero);

    let make_one = || -> (v: u64)
        ensures
            v == 1,
        { 1 };
    let make_zero = || -> (v: u64)
        ensures
            v == 0,
        { 0 };
    let one: u64 = make_one();
    let zero: u64 = make_zero();
    let third = checked_div(one, zero);

    (first, second, third)
}

} // verus!
