//! Resolving a distance traveled along a decoded path to the index of the
//! nearest sample point.
//!
//! A path of `n + 1` coordinates is represented by its `n` consecutive
//! segment lengths, in micro-meters. `locate` walks the segments
//! accumulating length and returns the index of the sample point nearest
//! to the target distance; within a segment the midpoint (rounded down to
//! a whole micro-meter) decides, and a target beyond the total length
//! clamps to the last point rather than failing.

use vstd::prelude::*;

verus! {

/// The sum of the first `n` segment lengths.
pub open spec fn spec_sum_prefix(s: Seq<u64>, n: int) -> int
    decreases n,
{
    if n <= 0 {
        0
    } else {
        spec_sum_prefix(s, n - 1) + s[n - 1]
    }
}

/// The total length of the path.
pub open spec fn spec_total(s: Seq<u64>) -> int {
    spec_sum_prefix(s, s.len() as int)
}

/// The index the walk returns when it reaches segment `i` with `acc`
/// length already accumulated.
pub open spec fn spec_walk(segs: Seq<u64>, t: int, i: int, acc: int) -> int
    decreases segs.len() - i,
{
    if i < 0 || i >= segs.len() {
        segs.len() as int
    } else {
        let mid = acc + segs[i] / 2;
        let next = acc + segs[i];
        if t < mid {
            i
        } else if t <= next {
            i + 1
        } else {
            spec_walk(segs, t, i + 1, next)
        }
    }
}

/// The point index `locate` resolves a target distance to: none for an
/// empty path, the first point for a target of zero (or less), and
/// otherwise the result of the midpoint walk.
pub open spec fn spec_locate(segs: Seq<u64>, t: int) -> Option<int> {
    if segs.len() == 0 {
        None
    } else if t == 0 {
        Some(0int)
    } else {
        Some(spec_walk(segs, t, 0, 0))
    }
}

proof fn lemma_prefix_sum_ordered(s: Seq<u64>, i: int, j: int)
    requires
        0 <= i <= j <= s.len(),
    ensures
        spec_sum_prefix(s, i) <= spec_sum_prefix(s, j),
    decreases j - i,
{
    if i < j {
        lemma_prefix_sum_ordered(s, i, j - 1);
    }
}

/// The walk never returns an index before the segment it starts at.
proof fn lemma_walk_at_least(segs: Seq<u64>, t: int, i: int, acc: int)
    requires
        0 <= i <= segs.len(),
    ensures
        spec_walk(segs, t, i, acc) >= i,
    decreases segs.len() - i,
{
    if i < segs.len() {
        let next = acc + segs[i];
        lemma_walk_at_least(segs, t, i + 1, next);
    }
}

/// The walk never returns an index past the last point.
proof fn lemma_walk_at_most(segs: Seq<u64>, t: int, i: int, acc: int)
    requires
        0 <= i <= segs.len(),
    ensures
        spec_walk(segs, t, i, acc) <= segs.len(),
    decreases segs.len() - i,
{
    if i < segs.len() {
        let next = acc + segs[i];
        lemma_walk_at_most(segs, t, i + 1, next);
    }
}

proof fn lemma_walk_monotonic(segs: Seq<u64>, t1: int, t2: int, i: int, acc: int)
    requires
        t1 <= t2,
        0 <= i,
    ensures
        spec_walk(segs, t1, i, acc) <= spec_walk(segs, t2, i, acc),
    decreases segs.len() - i,
{
    if i < segs.len() {
        let mid = acc + segs[i] / 2;
        let next = acc + segs[i];
        if t1 < mid {
            lemma_walk_at_least(segs, t2, i, acc);
        } else if t1 <= next {
            lemma_walk_at_least(segs, t2, i + 1, next);
        } else {
            lemma_walk_monotonic(segs, t1, t2, i + 1, next);
        }
    }
}

proof fn lemma_walk_beyond(segs: Seq<u64>, t: int, i: int)
    requires
        0 <= i <= segs.len(),
        t > spec_total(segs),
    ensures
        spec_walk(segs, t, i, spec_sum_prefix(segs, i)) == segs.len(),
    decreases segs.len() - i,
{
    if i < segs.len() {
        lemma_prefix_sum_ordered(segs, i + 1, segs.len() as int);
        lemma_walk_beyond(segs, t, i + 1);
    }
}

/// A target of zero always resolves to the first point of a non-empty
/// path.
pub proof fn lemma_locate_zero(segs: Seq<u64>)
    requires
        segs.len() > 0,
    ensures
        spec_locate(segs, 0) == Some(0int),
{
}

/// `locate` is monotonic: on the same path, a farther target never
/// resolves to an earlier point.
pub proof fn lemma_locate_monotonic(segs: Seq<u64>, t1: int, t2: int)
    requires
        segs.len() > 0,
        0 <= t1 <= t2,
    ensures
        spec_locate(segs, t1) matches Some(i1) && spec_locate(segs, t2) matches Some(i2) && i1
            <= i2,
{
    if t1 == 0 {
        if t2 != 0 {
            lemma_walk_at_least(segs, t2, 0, 0);
        }
    } else {
        lemma_walk_monotonic(segs, t1, t2, 0, 0);
    }
}

/// A target beyond the total path length clamps to the last point index
/// (the number of segments) instead of failing.
pub proof fn lemma_locate_clamps(segs: Seq<u64>, t: int)
    requires
        segs.len() > 0,
        t > spec_total(segs),
    ensures
        spec_locate(segs, t) == Some(segs.len() as int),
{
    lemma_prefix_sum_ordered(segs, 0, segs.len() as int);
    assert(spec_sum_prefix(segs, 0) == 0);
    lemma_walk_beyond(segs, t, 0);
}

/// Resolves a target distance (micro-meters) along a path given by its
/// segment lengths (micro-meters) to the index of the nearest sample
/// point. Returns none only for an empty path; a negative target resolves
/// to the first point and a target beyond the path to the last.
pub fn locate(segments: &Vec<u64>, target: i64) -> (r: Option<usize>)
    requires
        spec_total(segments@) <= u64::MAX,
    ensures
        match r {
            Some(i) => Some(i as int) == spec_locate(segments@, target as int),
            None => segments@.len() == 0,
        },
{
    let n = segments.len();
    if n == 0 {
        return None;
    }
    if target <= 0 {
        return Some(0);
    }
    let t = target as u64;
    let mut acc: u64 = 0;
    let mut i: usize = 0;
    loop
        invariant
            0 <= i <= n,
            0 < n,
            n == segments@.len(),
            t == target as int,
            t > 0,
            spec_total(segments@) <= u64::MAX,
            acc == spec_sum_prefix(segments@, i as int),
            spec_walk(segments@, t as int, 0, 0) == spec_walk(segments@, t as int, i as int, acc as int),
        decreases n - i,
    {
        if i == n {
            proof {
                assert(spec_walk(segments@, t as int, n as int, acc as int) == n as int);
            }
            return Some(n);
        }
        proof {
            lemma_prefix_sum_ordered(segments@, i + 1, n as int);
        }
        let seg = segments[i];
        let mid = acc + seg / 2;
        let next = acc + seg;
        if t < mid {
            return Some(i);
        } else if t <= next {
            return Some(i + 1);
        }
        acc = next;
        i = i + 1;
    }
}

} // verus!
