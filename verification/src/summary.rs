//! Summaries of samples: count, extrema and the three percentiles.

use vstd::prelude::*;
use crate::sample::{
    ascending, lemma_extrema, lemma_percentile_within_extrema, lemma_percentiles_ordered,
    lemma_singleton, max_of, min_of, percentile_of,
};
use crate::stats::{find_max, find_min, percentile, into_ascending};

verus! {

/// The 50th, 75th and 90th percentile of a sample.
#[derive(Debug, Clone, Copy, PartialEq, Eq, Structural)]
pub struct Percentiles {
    pub percentile_50: u64,
    pub percentile_75: u64,
    pub percentile_90: u64,
}

impl Percentiles {
    /// The percentiles of a sample without values.
    pub open spec fn zero() -> Percentiles {
        Percentiles { percentile_50: 0, percentile_75: 0, percentile_90: 0 }
    }

    /// The percentiles of a non-empty sample, whatever its order.
    pub open spec fn of_sample(s: Seq<u64>) -> Percentiles {
        Percentiles {
            percentile_50: percentile_of(ascending(s), 50),
            percentile_75: percentile_of(ascending(s), 75),
            percentile_90: percentile_of(ascending(s), 90),
        }
    }

    /// The median is at most the 75th percentile, which is at most the 90th.
    pub open spec fn is_ordered(&self) -> bool {
        self.percentile_50 <= self.percentile_75 <= self.percentile_90
    }

    /// All three percentiles lie between `low` and `high`.
    pub open spec fn is_within(&self, low: u64, high: u64) -> bool {
        &&& low <= self.percentile_50 <= high
        &&& low <= self.percentile_75 <= high
        &&& low <= self.percentile_90 <= high
    }

    /// The percentiles of a sample without values: all zero.
    pub fn default() -> (percentiles: Self)
        ensures
            percentiles == Percentiles::zero(),
            percentiles.is_ordered(),
    {
        Self { percentile_50: 0, percentile_75: 0, percentile_90: 0 }
    }

    /// The percentiles of a non-empty sample.
    pub fn new(values: Vec<u64>) -> (percentiles: Self)
        requires
            values.len() > 0,
        ensures
            percentiles == Percentiles::of_sample(values@),
            percentiles.is_ordered(),
            percentiles.is_within(min_of(values@), max_of(values@)),
    {
        proof {
            lemma_percentiles_wf(values@);
        }
        let sorted = into_ascending(values);
        Self {
            percentile_50: percentile(&sorted, 50),
            percentile_75: percentile(&sorted, 75),
            percentile_90: percentile(&sorted, 90),
        }
    }
}

/// The percentiles of every non-empty sample are ordered and lie between its
/// minimum and its maximum.
pub proof fn lemma_percentiles_wf(s: Seq<u64>)
    requires
        s.len() > 0,
    ensures
        Percentiles::of_sample(s).is_ordered(),
        Percentiles::of_sample(s).is_within(min_of(s), max_of(s)),
{
    lemma_percentiles_ordered(s);
    lemma_percentile_within_extrema(s, 50);
    lemma_percentile_within_extrema(s, 75);
    lemma_percentile_within_extrema(s, 90);
}

/// Count, extrema and percentiles of a sample.
#[derive(Debug, Clone, Copy, PartialEq, Eq, Structural)]
pub struct Summary {
    pub count: u64,
    pub min: u64,
    pub max: u64,
    pub percentiles: Percentiles,
}

impl Summary {
    /// The summary of a sample without values: every field is zero.
    pub open spec fn zero() -> Summary {
        Summary { count: 0, min: 0, max: 0, percentiles: Percentiles::zero() }
    }

    /// The summary of a sample: the zero summary if it has no values, else its
    /// length, its extrema and its percentiles.
    pub open spec fn of_sample(s: Seq<u64>) -> Summary {
        if s.len() == 0 {
            Summary::zero()
        } else {
            Summary {
                count: s.len() as u64,
                min: min_of(s),
                max: max_of(s),
                percentiles: Percentiles::of_sample(s),
            }
        }
    }

    /// A summary without values is the zero summary; in one with values the
    /// percentiles are ordered and lie between the extrema.
    pub open spec fn wf(&self) -> bool {
        if self.count == 0 {
            *self == Summary::zero()
        } else {
            &&& self.min <= self.max
            &&& self.percentiles.is_ordered()
            &&& self.percentiles.is_within(self.min, self.max)
        }
    }
}

/// Summarizes a sample. The caller's values are taken over, not changed.
pub fn summarize(values: Vec<u64>) -> (summary: Summary)
    ensures
        summary == Summary::of_sample(values@),
        summary.wf(),
{
    if values.len() > 0 {
        proof {
            lemma_extrema(values@);
        }
        return Summary {
            count: values.len() as u64,
            max: find_max(values.clone()),
            min: find_min(values.clone()),
            percentiles: Percentiles::new(values),
        };
    }
    Summary { count: 0, min: 0, max: 0, percentiles: Percentiles::default() }
}

/// The summary of every sample that a vector can hold is well formed.
pub proof fn lemma_summary_wf(s: Seq<u64>)
    requires
        s.len() <= u64::MAX,
    ensures
        Summary::of_sample(s).wf(),
{
    if s.len() > 0 {
        lemma_extrema(s);
        lemma_percentiles_wf(s);
    }
}

/// The summary of a sample of one value: count 1, and that value as minimum,
/// maximum and each percentile.
pub proof fn lemma_summary_of_singleton(v: u64)
    ensures
        Summary::of_sample(seq![v]) == (Summary {
            count: 1,
            min: v,
            max: v,
            percentiles: Percentiles { percentile_50: v, percentile_75: v, percentile_90: v },
        }),
{
    lemma_singleton(v, 50);
    lemma_singleton(v, 75);
    lemma_singleton(v, 90);
}

/// The summary of the sample without values is the zero summary.
pub proof fn lemma_summary_of_empty()
    ensures
        Summary::of_sample(Seq::<u64>::empty()) == Summary::zero(),
        Summary::zero() == (Summary {
            count: 0,
            min: 0,
            max: 0,
            percentiles: Percentiles { percentile_50: 0, percentile_75: 0, percentile_90: 0 },
        }),
{
}

} // verus!
