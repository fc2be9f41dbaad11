//! The full demonstration run, and its determinism.
//!
//! Everything the demonstrations report besides timing is gathered into one
//! record whose contract pins every field to a fixed value. From that
//! contract it is proved that two runs of the full demonstration agree on
//! every reported value: the non-timing output is structurally identical
//! from run to run.

use crate::arith::divide_by_zero_help;
use crate::maps::StringMap;
use crate::maps::hashmaps;
use crate::numbers::integers;
use crate::queue::double_queue;
use crate::slices::slices;
use crate::text::strings;
use crate::text::variables;
use crate::tuples::tuples;
use crate::types::Countries;
use crate::types::enums;
use crate::types::structs;
use crate::vector::vector;
use std::collections::VecDeque;
use vstd::prelude::*;

verus! {

/// Every non-timing value one run of the demonstrations reports.
pub struct DemoReport {
    /// The shadowed string of the variables demonstration.
    pub concat: String,
    /// The shadowed sum of the variables demonstration.
    pub shadow_sum: u64,
    /// The three checked divisions of the arithmetic demonstration.
    pub divisions: (Option<u64>, Option<u64>, Option<u64>),
    /// The vector the vector demonstration builds.
    pub grown: Vec<i64>,
    /// The queue the queue demonstration builds.
    pub queued: VecDeque<i64>,
    /// The strings the string demonstration builds.
    pub texts: (String, String, String),
    /// The values of the integer demonstration, per width and per base.
    pub numbers: ((u8, u16, u32, u64, u128), (u64, u64, u64, u64, u8)),
    /// The string-keyed map of the map demonstration.
    pub keyed: StringMap,
    /// The tuple demonstration's triples and exchanged pair.
    pub grouped: ((i64, i64, i64), (i64, i64, i64), (i64, i64)),
    /// The chosen country and the first variant's index of the enum
    /// demonstration.
    pub listed: (Countries, u32),
    /// The lengths of the two buffer halves of the slice demonstration.
    pub halves: (usize, usize),
    /// The labelled and the defaulted string of the struct demonstration.
    pub labels: (String, String),
}

/// What one run of the demonstrations must report: each field holds its
/// one fixed value.
pub open spec fn report_matches(r: DemoReport) -> bool {
    &&& r.concat@ == "555a"@
    &&& r.shadow_sum == 8
    &&& r.divisions.0 is None
    &&& r.divisions.1 is None
    &&& r.divisions.2 is None
    &&& r.grown@ == seq![1i64, 2i64, 3i64, 0i64, 5i64, 0i64, 0i64, 0i64, 0i64, 0i64, 3i64]
    &&& r.queued@ == seq![5i64, 1i64, 1i64, 1i64]
    &&& r.texts.0@ == "Howdy!"@
    &&& r.texts.1@ == "toast"@
    &&& r.texts.2@ == "toast"@
    &&& r.numbers.0 == (0u8, 1u16, 2u32, 3u64, 4u128)
    &&& r.numbers.1 == (255u64, 2396745u64, 11111111u64, 286331153u64, 65u8)
    &&& r.keyed@ == Map::<Seq<char>, u8>::empty().insert("seth"@, 2u8).insert("chelsea"@, 1u8)
    &&& r.grouped.0 == (1i64, 2i64, 3i64)
    &&& r.grouped.1 == (1i64, 2i64, 3i64)
    &&& r.grouped.2 == (2i64, 1i64)
    &&& r.listed.0 == Countries::Canada
    &&& r.listed.1 == 0
    &&& r.halves == (32usize, 32usize)
    &&& r.labels.0@ == "example"@
    &&& r.labels.1@ == Seq::<char>::empty()
}

/// Runs every non-timing demonstration once and gathers what it reports.
/// The contract pins every field, so what a run reports never varies.
pub fn run_demos() -> (r: DemoReport)
    ensures
        report_matches(r),
{
    let (concat, shadow_sum) = variables();
    let divisions = divide_by_zero_help();
    let grown = vector();
    let queued = double_queue();
    let texts = strings();
    let numbers = integers();
    let (keyed, _compound) = hashmaps();
    let grouped = tuples();
    let listed = enums();
    let (halves, _words) = slices();
    let (_empty, labelled, defaulted) = structs();
    let labels = (labelled.0, defaulted.0);
    DemoReport {
        concat,
        shadow_sum,
        divisions,
        grown,
        queued,
        texts,
        numbers,
        keyed,
        grouped,
        listed,
        halves,
        labels,
    }
}

/// Running the full demonstration twice yields structurally identical
/// non-timing output: any two reports that [`report_matches`] admits agree
/// on every reported value.
pub proof fn lemma_report_deterministic(a: DemoReport, b: DemoReport)
    requires
        report_matches(a),
        report_matches(b),
    ensures
        a.concat@ == b.concat@,
        a.shadow_sum == b.shadow_sum,
        a.divisions == b.divisions,
        a.grown@ == b.grown@,
        a.queued@ == b.queued@,
        a.texts.0@ == b.texts.0@,
        a.texts.1@ == b.texts.1@,
        a.texts.2@ == b.texts.2@,
        a.numbers == b.numbers,
        a.keyed@ == b.keyed@,
        a.grouped == b.grouped,
        a.listed == b.listed,
        a.halves == b.halves,
        a.labels.0@ == b.labels.0@,
        a.labels.1@ == b.labels.1@,
{
}

} // verus!
