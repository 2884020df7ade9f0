//! Executable aggregation over samples: extrema and percentiles.

use vstd::prelude::*;
use crate::sample::{
    ascending, is_ascending_of, is_max_of, is_min_of, is_sorted, lemma_ascending,
    lemma_ascending_unique, lemma_extrema, lemma_max_unique, lemma_min_unique, max_of, min_of,
    percentile_of,
};

verus! {

/// Sorts a vector of integers in place with `<[u64]>::sort` of the standard
/// library.
///
/// Trusted: the standard library documents that the slice is sorted in
/// ascending order; being an in-place sort, it keeps every value as often as it
/// occurred.
#[verifier::external_body]
fn sort_ascending(values: &mut Vec<u64>)
    ensures
        is_ascending_of(old(values)@, final(values)@),
{
    values.sort();
}

/// The largest element of a non-empty sample.
pub fn find_max(values: Vec<u64>) -> (max: u64)
    requires
        values.len() > 0,
    ensures
        is_max_of(values@, max),
        max == max_of(values@),
{
    let mut max: u64 = values[0];
    let mut i: usize = 1;
    while i < values.len()
        invariant
            1 <= i <= values.len(),
            exists|k: int| 0 <= k < i && values@[k] == max,
            forall|k: int| 0 <= k < i ==> values@[k] <= max,
        decreases values.len() - i,
    {
        if values[i] > max {
            max = values[i];
        }
        i += 1;
    }
    proof {
        lemma_extrema(values@);
        lemma_max_unique(values@, max, max_of(values@));
    }
    max
}

/// The smallest element of a non-empty sample.
pub fn find_min(values: Vec<u64>) -> (min: u64)
    requires
        values.len() > 0,
    ensures
        is_min_of(values@, min),
        min == min_of(values@),
{
    let mut min: u64 = values[0];
    let mut i: usize = 1;
    while i < values.len()
        invariant
            1 <= i <= values.len(),
            exists|k: int| 0 <= k < i && values@[k] == min,
            forall|k: int| 0 <= k < i ==> min <= values@[k],
        decreases values.len() - i,
    {
        if values[i] < min {
            min = values[i];
        }
        i += 1;
    }
    proof {
        lemma_extrema(values@);
        lemma_min_unique(values@, min, min_of(values@));
    }
    min
}

/// The percentile `p` of a sample that is already in non-decreasing order.
///
/// This is not the textbook nearest-rank percentile: a rank `p * n` that is a
/// multiple of 100 selects the element just below position `p * n / 100`, any
/// other rank the floor of the average of the two elements around that
/// position, and position 0 the first element. The rank and the average are
/// computed in 128 bits, so neither can overflow.
pub fn percentile(sorted: &Vec<u64>, p: usize) -> (value: u64)
    requires
        sorted.len() > 0,
        is_sorted(sorted@),
        p <= 100,
    ensures
        value == percentile_of(sorted@, p as int),
{
    let n: usize = sorted.len();
    assert(p * n <= 100 * n) by (nonlinear_arith)
        requires
            p <= 100,
            n >= 0,
    ;
    let rank: u128 = (p as u128) * (n as u128);
    let index: usize = (rank / 100) as usize;
    if rank % 100 == 0 {
        if index > 0 {
            sorted[index - 1]
        } else {
            sorted[index]
        }
    } else {
        if index > 0 {
            let sum: u128 = sorted[index] as u128 + sorted[index - 1] as u128;
            return (sum / 2) as u64;
        }
        sorted[index]
    }
}

/// The values of a sample in non-decreasing order. The vector is taken over
/// and sorted; no vector of the caller changes.
pub fn into_ascending(values: Vec<u64>) -> (sorted: Vec<u64>)
    ensures
        sorted@ == ascending(values@),
        sorted.len() == values.len(),
        is_sorted(sorted@),
{
    let mut sorted = values;
    sort_ascending(&mut sorted);
    proof {
        lemma_ascending_unique(values@, sorted@);
        lemma_ascending(values@);
    }
    sorted
}

/// The percentile `percentile` of a non-empty sample in any order: that of its
/// values in non-decreasing order.
pub fn find_percentiles(values: Vec<u64>, percentile: usize) -> (value: u64)
    requires
        values.len() > 0,
        percentile <= 100,
    ensures
        value == percentile_of(ascending(values@), percentile as int),
{
    let sorted = into_ascending(values);
    self::percentile(&sorted, percentile)
}

} // verus!
