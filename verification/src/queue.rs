//! A double-ended queue: values can enter at either end.

use std::collections::VecDeque;
use vstd::prelude::*;

verus! {

/// Pushes the value `1` onto the back of an empty queue three times, then
/// pushes `5` onto the front. The resulting queue is proved to read
/// `5, 1, 1, 1` from front to back.
pub fn double_queue() -> (q: VecDeque<i64>)
    ensures
        q@ =~= seq![5i64, 1i64, 1i64, 1i64],
{
    let mut dqueue: VecDeque<i64> = VecDeque::new();
    dqueue.push_back(1);
    dqueue.push_back(1);
    dqueue.push_back(1);
    dqueue.push_front(5);
    dqueue
}

} // verus!
