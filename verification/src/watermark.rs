//! Watermark filter: partitions incoming rows into "new" and "already
//! seen" against an entity's last-persisted instant.
//!
//! Instants are plain signed 64-bit values — epoch seconds for sub-day
//! ticks, day numbers for daily bars; the predicate is the same for
//! both granularities. A missing watermark means "no prior data", so
//! every candidate is new; otherwise a candidate is new exactly when it
//! lies strictly after the watermark, which keeps a row that matches
//! the boundary from being inserted twice.

use vstd::prelude::*;

verus! {

/// Is a candidate instant new relative to the watermark?
pub open spec fn spec_is_new(candidate: i64, watermark: Option<i64>) -> bool {
    match watermark {
        Option::None => true,
        Option::Some(w) => candidate > w,
    }
}

/// Watermark predicate. With no watermark everything is new; with one,
/// only instants strictly past it are (idempotence at the boundary:
/// a candidate equal to the watermark is already ingested).
pub fn is_new(candidate: i64, watermark: Option<i64>) -> (r: bool)
    ensures
        r == spec_is_new(candidate, watermark),
{
    match watermark {
        Option::None => true,
        Option::Some(w) => candidate > w,
    }
}

/// The positions, in their original order, of the instants that pass
/// the watermark.
pub fn filter_new(times: &Vec<i64>, watermark: Option<i64>) -> (r: Vec<usize>)
    ensures
        forall|j: int|
            0 <= j < r@.len() ==> r@[j] < times@.len() && spec_is_new(
                times@[#[trigger] r@[j] as int],
                watermark,
            ),
        forall|j: int, k: int| 0 <= j < k < r@.len() ==> r@[j] < r@[k],
        forall|i: int|
            0 <= i < times@.len() && spec_is_new(#[trigger] times@[i], watermark) ==> r@.contains(
                i as usize,
            ),
{
    let n = times.len();
    let mut r: Vec<usize> = Vec::new();
    let mut i: usize = 0;
    while i < n
        invariant
            0 <= i <= n,
            n == times@.len(),
            forall|j: int|
                0 <= j < r@.len() ==> r@[j] < i && spec_is_new(
                    times@[#[trigger] r@[j] as int],
                    watermark,
                ),
            forall|j: int, k: int| 0 <= j < k < r@.len() ==> r@[j] < r@[k],
            forall|t: int|
                0 <= t < i && spec_is_new(#[trigger] times@[t], watermark) ==> r@.contains(
                    t as usize,
                ),
        decreases n - i,
    {
        if is_new(times[i], watermark) {
            let ghost r0 = r@;
            r.push(i);
            proof {
                assert(r@[r@.len() - 1] == i);
                assert forall|t: usize| r0.contains(t) implies r@.contains(t) by {
                    let idx = choose|idx: int| 0 <= idx < r0.len() && r0[idx] == t;
                    assert(r@[idx] == t);
                }
                assert(r@.contains(i));
            }
        }
        i += 1;
    }
    r
}

/// Watermark laws: with no watermark everything is new; with a
/// watermark `w`, the filter is idempotent at the boundary — `w` itself
/// is never re-admitted — while every strictly later instant is.
pub proof fn lemma_watermark_boundary(w: i64, candidate: i64)
    ensures
        spec_is_new(candidate, Option::None) == true,
        spec_is_new(w, Option::Some(w)) == false,
        candidate > w ==> spec_is_new(candidate, Option::Some(w)) == true,
        candidate <= w ==> spec_is_new(candidate, Option::Some(w)) == false,
{
}

} // verus!
