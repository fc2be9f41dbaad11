//! Growable vectors: literal construction, resizing, pushing, and element
//! assignment.

use vstd::prelude::*;

verus! {

/// Vector demonstration: starts from `[1, 2, 3]`, grows it to ten elements
/// filled with zeroes, pushes a final `3`, and overwrites the element at
/// index four with `5`. The result is proved to be exactly
/// `[1, 2, 3, 0, 5, 0, 0, 0, 0, 0, 3]`; borrowing it as a slice changes
/// nothing about its contents.
pub fn vector() -> (v: Vec<i64>)
    ensures
        v@ =~= seq![1i64, 2i64, 3i64, 0i64, 5i64, 0i64, 0i64, 0i64, 0i64, 0i64, 3i64],
{
    let mut vec: Vec<i64> = Vec::new();
    vec.push(1);
    vec.push(2);
    vec.push(3);
    let ghost before = vec@;
    vec.resize(10, 0);
    proof {
        assert(vec@.subrange(0, 3)[0] == before[0]);
        assert(vec@.subrange(0, 3)[1] == before[1]);
        assert(vec@.subrange(0, 3)[2] == before[2]);
        assert forall|i: int| 3 <= i < 10 implies vec@[i] == 0 by {
            assert(vstd::pervasive::cloned(0i64, vec@[i]));
        }
    }

    vec.push(3);
    vec[4] = 5;

    let slice: &[i64] = vec.as_slice();
    proof {
        assert(slice@ == vec@);
    }
    vec
}

} // verus!
