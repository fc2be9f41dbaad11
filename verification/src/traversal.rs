//! Timed traversal of a large sequence.
//!
//! A fresh sequence of ten million zero elements is allocated for each of
//! three trials. Each trial visits every element and evaluates the predicate
//! `element < 0` on it; the trials differ only in traversal style — by
//! index, by value through a consuming iterator, or by applying a closure
//! per element. Since every element is zero, the predicate never holds, and
//! each traversal's contract proves that its match count is zero. The
//! wall-clock cost of each traversal is measured with a monotonic clock and
//! reported in nanoseconds.

use std::time::Duration;
use std::time::Instant;
use vstd::prelude::*;

verus! {

/// Number of elements each trial allocates and traverses.
pub const SEQUENCE_LEN: usize = 10_000_000;

/// How many elements of `s` satisfy the traversal predicate `element < 0`.
pub open spec fn count_below_zero(s: Seq<i64>) -> nat
    decreases s.len(),
{
    if s.len() == 0 {
        0
    } else {
        count_below_zero(s.drop_last()) + (if s.last() < 0 {
            1nat
        } else {
            0nat
        })
    }
}

/// The match count never exceeds the number of elements visited.
pub proof fn lemma_count_below_zero_le_len(s: Seq<i64>)
    ensures
        count_below_zero(s) <= s.len(),
    decreases s.len(),
{
    if s.len() > 0 {
        lemma_count_below_zero_le_len(s.drop_last());
    }
}

/// A sequence of zeroes triggers the predicate on no element at all: its
/// match count is zero, whatever its length.
pub proof fn lemma_all_zero_count_zero(s: Seq<i64>)
    requires
        forall|i: int| 0 <= i < s.len() ==> s[i] == 0,
    ensures
        count_below_zero(s) == 0,
    decreases s.len(),
{
    if s.len() > 0 {
        lemma_all_zero_count_zero(s.drop_last());
    }
}

/// A fresh sequence of `len` elements, all zero.
pub fn make_zero_sequence(len: usize) -> (v: Vec<i64>)
    ensures
        v@.len() == len,
        forall|i: int| 0 <= i < len ==> v@[i] == 0,
{
    let mut v: Vec<i64> = Vec::with_capacity(len);
    let mut k: usize = 0;
    while k < len
        invariant
            k <= len,
            v@.len() == k,
            forall|i: int| 0 <= i < k ==> v@[i] == 0,
        decreases len - k,
    {
        v.push(0);
        k = k + 1;
    }
    v
}

/// Index-based traversal: visits every element of `v` in order and counts
/// how many satisfy `element < 0`.
pub fn traverse_by_index(v: &Vec<i64>) -> (n: usize)
    ensures
        n == count_below_zero(v@),
{
    let mut n: usize = 0;
    let mut k: usize = 0;
    while k < v.len()
        invariant
            k <= v@.len(),
            n == count_below_zero(v@.take(k as int)),
        decreases v@.len() - k,
    {
        proof {
            lemma_count_below_zero_le_len(v@.take(k as int));
            assert(v@.take(k + 1 as int).drop_last() =~= v@.take(k as int));
        }
        if v[k] < 0 {
            n = n + 1;
        }
        k = k + 1;
    }
    proof {
        assert(v@.take(v@.len() as int) =~= v@);
    }
    n
}

/// Value-consuming traversal: iterates over `v` by value, destroying it,
/// and counts how many elements satisfy `element < 0`.
pub fn traverse_by_value(v: Vec<i64>) -> (n: usize)
    ensures
        n == count_below_zero(v@),
{
    let ghost full = v@;
    let len: usize = v.len();
    let mut n: usize = 0;
    for x in it: v.into_iter()
        invariant
            it.seq() == full,
            it.index() <= full.len(),
            full.len() == len,
            n == count_below_zero(full.take(it.index() as int)),
    {
        proof {
            lemma_count_below_zero_le_len(full.take(it.index() as int));
            assert(full.take(it.index() + 1 as int).drop_last() =~= full.take(it.index() as int));
        }
        if x < 0 {
            n = n + 1;
        }
    }
    proof {
        assert(full.take(full.len() as int) =~= full);
    }
    n
}

/// Closure-applied traversal: builds the predicate `element < 0` as a
/// closure and applies it to every element of `v` in turn, counting the
/// elements on which it holds.
pub fn traverse_with_closure(v: Vec<i64>) -> (n: usize)
    ensures
        n == count_below_zero(v@),
{
    let below_zero = |x: i64| -> (b: bool)
        ensures
            b == (x < 0),
        { x < 0 };
    let mut n: usize = 0;
    let mut k: usize = 0;
    while k < v.len()
        invariant
            k <= v@.len(),
            n == count_below_zero(v@.take(k as int)),
            forall|x: i64, b: bool| call_ensures(below_zero, (x,), b) ==> b == (x < 0),
            forall|x: i64| call_requires(below_zero, (x,)),
        decreases v@.len() - k,
    {
        proof {
            lemma_count_below_zero_le_len(v@.take(k as int));
            assert(v@.take(k + 1 as int).drop_last() =~= v@.take(k as int));
        }
        if below_zero(v[k]) {
            n = n + 1;
        }
        k = k + 1;
    }
    proof {
        assert(v@.take(v@.len() as int) =~= v@);
    }
    n
}

/// Declares `std::time::Instant` so that an opaque snapshot of the
/// monotonic clock can be carried through verified code.
#[verifier::external_type_specification]
#[verifier::external_body]
pub struct ExInstant(Instant);

/// Relies on `std::time::Instant::now`: captures the current instant of a
/// monotonic clock. Nothing can be promised of which instant it is.
#[verifier::external_body]
fn instant_now() -> (t: Instant) {
    Instant::now()
}

/// Relies on `std::time::Instant::elapsed`: the time that has passed since
/// `start` was captured. The result depends on when it is called, so
/// nothing is promised of it.
#[verifier::external_body]
fn instant_elapsed(start: &Instant) -> (d: Duration) {
    start.elapsed()
}

/// Relies on `std::time::Duration::as_nanos`: the whole duration expressed
/// in nanoseconds.
#[verifier::external_body]
fn duration_as_nanos(d: &Duration) -> (n: u128) {
    d.as_nanos()
}

/// One complete trial: allocate a zero sequence of [`SEQUENCE_LEN`]
/// elements, traverse it by index, and measure the traversal. Returns the
/// match count — proved to be zero, since the predicate `element < 0` holds
/// of no zero element — and the elapsed time in nanoseconds, which is
/// non-negative by its type.
pub fn timed_trial_by_index() -> (r: (usize, u128))
    ensures
        r.0 == 0,
{
    let v = make_zero_sequence(SEQUENCE_LEN);
    proof {
        lemma_all_zero_count_zero(v@);
    }
    let start = instant_now();
    let n = traverse_by_index(&v);
    let elapsed = instant_elapsed(&start);
    (n, duration_as_nanos(&elapsed))
}

/// One complete trial traversing by value; see [`timed_trial_by_index`].
pub fn timed_trial_by_value() -> (r: (usize, u128))
    ensures
        r.0 == 0,
{
    let v = make_zero_sequence(SEQUENCE_LEN);
    proof {
        lemma_all_zero_count_zero(v@);
    }
    let start = instant_now();
    let n = traverse_by_value(v);
    let elapsed = instant_elapsed(&start);
    (n, duration_as_nanos(&elapsed))
}

/// One complete trial traversing with a closure; see
/// [`timed_trial_by_index`].
pub fn timed_trial_with_closure() -> (r: (usize, u128))
    ensures
        r.0 == 0,
{
    let v = make_zero_sequence(SEQUENCE_LEN);
    proof {
        lemma_all_zero_count_zero(v@);
    }
    let start = instant_now();
    let n = traverse_with_closure(v);
    let elapsed = instant_elapsed(&start);
    (n, duration_as_nanos(&elapsed))
}

/// Runs the three trials in order — by index, by value, with a closure —
/// and returns, per trial, the match count and the elapsed nanoseconds.
/// Every match count is proved zero: the predicate-triggered branch never
/// executes in any trial.
pub fn iterator() -> (r: Vec<(usize, u128)>)
    ensures
        r@.len() == 3,
        forall|i: int| 0 <= i < r@.len() ==> (#[trigger] r@[i]).0 == 0,
{
    let mut out: Vec<(usize, u128)> = Vec::new();
    out.push(timed_trial_by_index());
    out.push(timed_trial_by_value());
    out.push(timed_trial_with_closure());
    out
}

} // verus!
