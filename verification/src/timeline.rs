//! Locating the pair of keyframes that brackets a position on the timeline.
//!
//! Positions are unsigned order keys. The caller maps its time axis to keys
//! by any strictly increasing map, so that comparing two keys is comparing
//! the two times; the search below depends on nothing else.

use vstd::prelude::*;

verus! {

/// Whether keyframes `i` and `i + 1` bracket `position`.
pub open spec fn brackets(times: Seq<u64>, i: int, position: u64) -> bool {
    &&& 0 <= i < times.len() - 1
    &&& times[i] <= position <= times[i + 1]
}

/// Whether some neighbouring pair of keyframes brackets `position`.
pub open spec fn bracketed(times: Seq<u64>, position: u64) -> bool {
    exists|i: int| brackets(times, i, position)
}

/// Whether `(from, to)` is the pair to interpolate between at `position`:
/// the first neighbouring pair, in timeline order, that brackets the
/// position, or the first and the last keyframe when no pair does.
pub open spec fn located(times: Seq<u64>, position: u64, from: int, to: int) -> bool {
    if bracketed(times, position) {
        &&& to == from + 1
        &&& brackets(times, from, position)
        &&& forall|j: int| 0 <= j < from ==> !brackets(times, j, position)
    } else {
        &&& from == 0
        &&& to == times.len() - 1
    }
}

/// Whether the keys never decrease along the timeline.
pub open spec fn ordered(times: Seq<u64>) -> bool {
    forall|i: int, j: int| 0 <= i <= j < times.len() ==> times[i] <= times[j]
}

/// Whether a timeline of two or more keyframes starts at the key `start`
/// and ends at the key `end`. Shorter timelines are degenerate and pass.
pub open spec fn spans(times: Seq<u64>, start: u64, end: u64) -> bool {
    times.len() >= 2 ==> times[0] == start && times[times.len() - 1] == end
}

/// Tells whether the keys never decrease along the timeline.
pub fn is_ordered(times: &Vec<u64>) -> (ok: bool)
    ensures
        ok <==> ordered(times@),
{
    let n = times.len();
    let mut i: usize = 1;
    while i < n
        invariant
            n == times@.len(),
            1 <= i,
            forall|a: int, b: int| 0 <= a <= b < i && b < n ==> times@[a] <= times@[b],
        decreases n - i,
    {
        if times[i - 1] > times[i] {
            return false;
        }
        i += 1;
    }
    true
}

/// Tells whether a timeline of two or more keyframes runs from `start` to
/// `end`.
pub fn is_spanning(times: &Vec<u64>, start: u64, end: u64) -> (ok: bool)
    ensures
        ok <==> spans(times@, start, end),
{
    let n = times.len();
    n < 2 || (times[0] == start && times[n - 1] == end)
}

/// Finds the pair of keyframes to interpolate between at `position`.
/// An empty timeline has none; otherwise the result is the first bracketing
/// pair of neighbours, or the first and last keyframe when the position lies
/// outside every pair.
pub fn bracket(times: &Vec<u64>, position: u64) -> (segment: Option<(usize, usize)>)
    ensures
        segment is None <==> times@.len() == 0,
        segment matches Some((from, to)) ==> located(times@, position, from as int, to as int),
{
    let n = times.len();
    if n == 0 {
        return None;
    }
    let mut i: usize = 0;
    while i + 1 < n
        invariant
            n == times@.len(),
            0 <= i < n,
            forall|j: int| 0 <= j < i ==> !brackets(times@, j, position),
        decreases n - i,
    {
        if times[i] <= position && position <= times[i + 1] {
            assert(brackets(times@, i as int, position));
            return Some((i, i + 1));
        }
        i += 1;
    }
    Some((0, n - 1))
}

/// At the key of the first keyframe the search yields the first pair.
pub proof fn lemma_located_at_start(times: Seq<u64>, from: int, to: int)
    requires
        times.len() >= 2,
        ordered(times),
        located(times, times[0], from, to),
    ensures
        from == 0,
        to == 1,
{
    assert(brackets(times, 0, times[0]));
}

/// Between the first and the last key of an ordered timeline the search
/// never falls back: it yields two neighbours that bracket the position.
pub proof fn lemma_located_inside(times: Seq<u64>, position: u64, from: int, to: int)
    requires
        times.len() >= 2,
        ordered(times),
        times[0] <= position <= times[times.len() - 1],
        located(times, position, from, to),
    ensures
        0 <= from,
        to == from + 1,
        to < times.len(),
        times[from] <= position <= times[to],
{
    lemma_bracket_exists(times, position, 0);
}

/// At the key of the last keyframe of an ordered timeline the search
/// yields a pair whose second keyframe carries that key. Where the last key
/// occurs only once, that keyframe is the last one.
pub proof fn lemma_located_at_end(times: Seq<u64>, from: int, to: int)
    requires
        times.len() >= 2,
        ordered(times),
        located(times, times[times.len() - 1], from, to),
    ensures
        to == from + 1,
        0 <= from,
        to < times.len(),
        times[to] == times[times.len() - 1],
        times[times.len() - 2] < times[times.len() - 1] ==> to == times.len() - 1,
{
    let last = times[times.len() - 1];
    lemma_located_inside(times, last, from, to);
}

/// From any keyframe at or before the position there is a bracketing pair
/// further along an ordered timeline that ends at or after the position.
proof fn lemma_bracket_exists(times: Seq<u64>, position: u64, k: int)
    requires
        0 <= k < times.len() - 1,
        times[k] <= position <= times[times.len() - 1],
    ensures
        bracketed(times, position),
    decreases times.len() - k,
{
    if position <= times[k + 1] {
        assert(brackets(times, k, position));
    } else {
        lemma_bracket_exists(times, position, k + 1);
    }
}

} // verus!
