//! The mathematical model of a sample: a finite sequence of unsigned integers,
//! its ascending arrangement, its extrema and its percentiles.

use vstd::prelude::*;
use vstd::relations::{sorted_by, total_ordering};
use vstd::seq_lib::{lemma_sorted_unique, to_multiset_contains};

verus! {

/// `s` is in non-decreasing order.
pub open spec fn is_sorted(s: Seq<u64>) -> bool {
    forall|i: int, j: int| 0 <= i <= j < s.len() ==> s[i] <= s[j]
}

/// `t` holds the values of `s`, each as often as `s` does, in non-decreasing order.
pub open spec fn is_ascending_of(s: Seq<u64>, t: Seq<u64>) -> bool {
    is_sorted(t) && t.to_multiset() == s.to_multiset()
}

/// The values of `s` in non-decreasing order.
pub open spec fn ascending(s: Seq<u64>) -> Seq<u64> {
    choose|t: Seq<u64>| is_ascending_of(s, t)
}

/// The percentile `p` of a sample that is already in non-decreasing order.
///
/// With `rank = p * n`, a rank that is a multiple of 100 selects the element
/// just below position `rank / 100`; any other rank selects the floor of the
/// average of the two elements around that position. Position 0 always
/// selects the first element.
pub open spec fn percentile_of(sorted: Seq<u64>, p: int) -> u64 {
    let rank = p * sorted.len();
    let index = rank / 100;
    if rank % 100 == 0 {
        if index > 0 {
            sorted[index - 1]
        } else {
            sorted[0]
        }
    } else {
        if index > 0 {
            ((sorted[index] + sorted[index - 1]) / 2) as u64
        } else {
            sorted[0]
        }
    }
}

/// `m` occurs in `s` and no element of `s` is smaller.
pub open spec fn is_min_of(s: Seq<u64>, m: u64) -> bool {
    s.contains(m) && forall|i: int| 0 <= i < s.len() ==> m <= s[i]
}

/// `m` occurs in `s` and no element of `s` is larger.
pub open spec fn is_max_of(s: Seq<u64>, m: u64) -> bool {
    s.contains(m) && forall|i: int| 0 <= i < s.len() ==> s[i] <= m
}

/// The smallest element of a non-empty sample.
pub open spec fn min_of(s: Seq<u64>) -> u64 {
    choose|m: u64| is_min_of(s, m)
}

/// The largest element of a non-empty sample.
pub open spec fn max_of(s: Seq<u64>) -> u64 {
    choose|m: u64| is_max_of(s, m)
}

/// The order of the integers, in the form that the sequence library takes.
spec fn leq() -> spec_fn(u64, u64) -> bool {
    |a: u64, b: u64| a <= b
}

/// The order of the integers is total.
proof fn lemma_leq_total()
    ensures
        total_ordering(leq()),
{
}

/// `is_sorted` is the sequence library's notion of sorted, for integers.
proof fn lemma_sorted_by_leq(s: Seq<u64>)
    ensures
        is_sorted(s) <==> sorted_by(s, leq()),
{
    if sorted_by(s, leq()) {
        assert forall|i: int, j: int| 0 <= i <= j < s.len() implies s[i] <= s[j] by {
            if i < j {
                assert(leq()(s[i], s[j]));
            }
        }
    }
    if is_sorted(s) {
        assert forall|i: int, j: int| 0 <= i < j < s.len() implies #[trigger] leq()(s[i], s[j]) by {
        }
    }
}

/// Every sample has an ascending arrangement, of the same length.
pub proof fn lemma_ascending(s: Seq<u64>)
    ensures
        is_ascending_of(s, ascending(s)),
        ascending(s).len() == s.len(),
{
    let t = s.sort_by(leq());
    lemma_leq_total();
    s.lemma_sort_by_ensures(leq());
    lemma_sorted_by_leq(t);
    assert(is_ascending_of(s, t));
    ascending(s).to_multiset_ensures();
    s.to_multiset_ensures();
}

/// The ascending arrangement is the only sorted sequence with the sample's values.
pub proof fn lemma_ascending_unique(s: Seq<u64>, t: Seq<u64>)
    requires
        is_ascending_of(s, t),
    ensures
        ascending(s) == t,
{
    lemma_ascending(s);
    lemma_leq_total();
    lemma_sorted_by_leq(t);
    lemma_sorted_by_leq(ascending(s));
    lemma_sorted_unique(ascending(s), t, leq());
}

/// The ascending arrangement holds a value exactly when the sample does.
pub proof fn lemma_ascending_contains(s: Seq<u64>, v: u64)
    ensures
        ascending(s).contains(v) <==> s.contains(v),
{
    lemma_ascending(s);
    to_multiset_contains(ascending(s), v);
    to_multiset_contains(s, v);
}

/// The extrema of a non-empty sample exist, and they are the two ends of its
/// ascending arrangement.
pub proof fn lemma_extrema(s: Seq<u64>)
    requires
        s.len() > 0,
    ensures
        is_min_of(s, min_of(s)),
        is_max_of(s, max_of(s)),
        min_of(s) == ascending(s).first(),
        max_of(s) == ascending(s).last(),
        min_of(s) <= max_of(s),
{
    let t = ascending(s);
    lemma_ascending(s);
    lemma_ascending_contains(s, t.first());
    lemma_ascending_contains(s, t.last());
    assert(t.contains(t[0]));
    assert(t.contains(t[t.len() - 1]));
    assert forall|i: int| 0 <= i < s.len() implies t.first() <= #[trigger] s[i] <= t.last() by {
        lemma_ascending_contains(s, s[i]);
        assert(s.contains(s[i]));
        let j = choose|j: int| 0 <= j < t.len() && t[j] == s[i];
        assert(t[0] <= t[j] <= t[t.len() - 1]);
    }
    assert(is_min_of(s, t.first()));
    assert(is_max_of(s, t.last()));
    lemma_min_unique(s, t.first(), min_of(s));
    lemma_max_unique(s, t.last(), max_of(s));
}

/// A sample has at most one minimum.
pub proof fn lemma_min_unique(s: Seq<u64>, a: u64, b: u64)
    requires
        is_min_of(s, a),
        is_min_of(s, b),
    ensures
        a == b,
{
    let i = choose|i: int| 0 <= i < s.len() && s[i] == a;
    let j = choose|j: int| 0 <= j < s.len() && s[j] == b;
    assert(b <= s[i] && a <= s[j]);
}

/// A sample has at most one maximum.
pub proof fn lemma_max_unique(s: Seq<u64>, a: u64, b: u64)
    requires
        is_max_of(s, a),
        is_max_of(s, b),
    ensures
        a == b,
{
    let i = choose|i: int| 0 <= i < s.len() && s[i] == a;
    let j = choose|j: int| 0 <= j < s.len() && s[j] == b;
    assert(s[i] <= b && s[j] <= a);
}

/// The position around which `percentile_of` reads lies inside the sample,
/// and grows with `p`.
proof fn lemma_rank(n: int, p: int, q: int)
    requires
        n > 0,
        0 <= p <= q <= 100,
    ensures
        0 <= p * n <= q * n <= 100 * n,
        0 <= (p * n) / 100 <= (q * n) / 100 <= n,
        (q * n) % 100 != 0 ==> (q * n) / 100 < n,
        p * n == q * n ==> p == q,
{
    assert(0 <= p * n <= q * n <= 100 * n && (p * n == q * n ==> p == q)) by (nonlinear_arith)
        requires
            n > 0,
            0 <= p <= q <= 100,
    ;
}

/// Every percentile of a sorted sample lies between its first and its last
/// element.
pub proof fn lemma_percentile_between(sorted: Seq<u64>, p: int)
    requires
        sorted.len() > 0,
        is_sorted(sorted),
        0 <= p <= 100,
    ensures
        sorted.first() <= percentile_of(sorted, p) <= sorted.last(),
{
    let n = sorted.len() as int;
    lemma_rank(n, p, p);
    let index = (p * n) / 100;
    if index > 0 {
        assert(sorted[0] <= sorted[index - 1] <= sorted[n - 1]);
        if (p * n) % 100 != 0 {
            assert(sorted[0] <= sorted[index] <= sorted[n - 1]);
        }
    }
}

/// Over a sorted sample a larger percentile never selects a smaller value.
pub proof fn lemma_percentile_monotonic(sorted: Seq<u64>, p: int, q: int)
    requires
        sorted.len() > 0,
        is_sorted(sorted),
        0 <= p <= q <= 100,
    ensures
        percentile_of(sorted, p) <= percentile_of(sorted, q),
{
    let n = sorted.len() as int;
    lemma_rank(n, p, q);
    lemma_rank(n, p, p);
    lemma_rank(n, q, q);
    let i = (p * n) / 100;
    let j = (q * n) / 100;
    let p_exact = (p * n) % 100 == 0;
    let q_exact = (q * n) % 100 == 0;
    if i < j {
        // p selects nothing above sorted[i], q nothing below sorted[j - 1].
        assert(sorted[i] <= sorted[j - 1]);
        if i > 0 {
            assert(sorted[i - 1] <= sorted[i]);
        }
        if !q_exact {
            assert(sorted[j - 1] <= sorted[j]);
        }
    } else if i > 0 {
        // Both read around the same position.
        if !p_exact {
            assert(!q_exact);
        } else if !q_exact {
            assert(sorted[i - 1] <= sorted[i]);
        }
    }
}

/// The three percentiles of a summary are ordered: for every non-empty sample
/// the median is at most the 75th percentile, which is at most the 90th.
pub proof fn lemma_percentiles_ordered(s: Seq<u64>)
    requires
        s.len() > 0,
    ensures
        percentile_of(ascending(s), 50) <= percentile_of(ascending(s), 75),
        percentile_of(ascending(s), 75) <= percentile_of(ascending(s), 90),
{
    lemma_ascending(s);
    lemma_percentile_monotonic(ascending(s), 50, 75);
    lemma_percentile_monotonic(ascending(s), 75, 90);
}

/// Every percentile of a non-empty sample lies between its minimum and its
/// maximum.
pub proof fn lemma_percentile_within_extrema(s: Seq<u64>, p: int)
    requires
        s.len() > 0,
        0 <= p <= 100,
    ensures
        min_of(s) <= percentile_of(ascending(s), p) <= max_of(s),
{
    lemma_ascending(s);
    lemma_extrema(s);
    lemma_percentile_between(ascending(s), p);
}

/// A sample of one value has that value as its minimum, its maximum and each
/// of its percentiles.
pub proof fn lemma_singleton(v: u64, p: int)
    requires
        0 <= p <= 100,
    ensures
        ascending(seq![v]) == seq![v],
        min_of(seq![v]) == v,
        max_of(seq![v]) == v,
        percentile_of(ascending(seq![v]), p) == v,
{
    let s = seq![v];
    assert(is_sorted(s));
    lemma_ascending_unique(s, s);
    lemma_extrema(s);
    lemma_percentile_between(s, p);
}

/// The ascending arrangement, and with it every percentile, depends on the
/// values of a sample and on how often each occurs, not on their order.
pub proof fn lemma_ascending_ignores_order(s: Seq<u64>, t: Seq<u64>)
    requires
        s.to_multiset() == t.to_multiset(),
    ensures
        ascending(s) == ascending(t),
{
    lemma_ascending(t);
    lemma_ascending_unique(s, ascending(t));
}

} // verus!
