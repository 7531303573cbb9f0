//! Geometry utilities: ordering a pair of scalars, decomposing a 3D
//! displacement into independent axis-aligned extents, and the lazy segment
//! iterator that enumerates unit-spaced placement positions along one axis.

use vstd::prelude::*;

use crate::WorldPoint;

verus! {

/// The smaller of two scalars.
pub open spec fn min_spec(a: int, b: int) -> int {
    if a > b {
        b
    } else {
        a
    }
}

/// The larger of two scalars.
pub open spec fn max_spec(a: int, b: int) -> int {
    if a > b {
        a
    } else {
        b
    }
}

/// Returns the two inputs sorted ascending, regardless of argument order.
pub fn min_max(a: i64, b: i64) -> (r: (i64, i64))
    ensures
        r.0 == min_spec(a as int, b as int),
        r.1 == max_spec(a as int, b as int),
{
    if a > b {
        (b, a)
    } else {
        (a, b)
    }
}

/// Ordering is symmetric under argument swap: `order(a, b)` and `order(b, a)`
/// return the same `(min, max)` pair.
pub proof fn lemma_min_max_symmetric(a: int, b: int)
    ensures
        min_spec(a, b) == min_spec(b, a),
        max_spec(a, b) == max_spec(b, a),
{
}

/// The signed extents of `dest` relative to `origin` on the x/z plane. The
/// y axis is ignored: wall placement is confined to a horizontal plane.
///
/// The postconditions pin down both the subtraction and its inverse:
/// translating the origin by the returned extents reaches the destination.
pub fn manhattan_distance(origin: WorldPoint, dest: WorldPoint) -> (r: (i64, i64))
    requires
        origin.wf(),
        dest.wf(),
    ensures
        r.0 == dest.x - origin.x,
        r.1 == dest.z - origin.z,
        origin.x + r.0 == dest.x,
        origin.z + r.1 == dest.z,
{
    (dest.x - origin.x, dest.z - origin.z)
}

/// The ascending unit-spaced positions from `lo` (inclusive) up to `hi`
/// (exclusive); empty when `lo >= hi`.
pub open spec fn positions_from(lo: int, hi: int) -> Seq<int> {
    if lo < hi {
        Seq::new((hi - lo) as nat, |i: int| lo + i)
    } else {
        Seq::empty()
    }
}

/// The positions the segment iterator over `(a, b)` yields: ascending from
/// `min(a, b)` while strictly below `max(a, b)`, whatever the argument order.
pub open spec fn seg_positions(a: int, b: int) -> Seq<int> {
    positions_from(min_spec(a, b), max_spec(a, b))
}

/// How many segment positions the span `(a, b)` holds.
pub open spec fn seg_count(a: int, b: int) -> nat {
    seg_positions(a, b).len()
}

/// For `a < b` the segment iterator over `(a, b)` yields exactly `b - a`
/// values, the first equals `a`, and consecutive values differ by exactly
/// one; once the bounds meet (`a == b`) it yields nothing. (For `a > b` the
/// iterator reorders its bounds first, so the span is never traversed
/// descending: it yields `seg_positions(b, a)`.)
pub proof fn lemma_iterator_termination(a: int, b: int)
    ensures
        a < b ==> seg_positions(a, b).len() == b - a,
        a < b ==> seg_positions(a, b)[0] == a,
        forall|i: int|
            0 <= i < seg_positions(a, b).len() - 1 ==> #[trigger] seg_positions(a, b)[i + 1]
                == seg_positions(a, b)[i] + 1,
        a == b ==> seg_positions(a, b).len() == 0,
        seg_positions(a, b) == seg_positions(b, a),
{
}

/// A lazy, finite sequence of unit-spaced scalar positions: starts at the
/// smaller bound and counts up by one while strictly below the larger bound.
pub struct MinMaxResult {
    lower: i64,
    upper: i64,
}

impl MinMaxResult {
    /// The next position the iterator will yield (when any remain).
    pub closed spec fn cur(self) -> int {
        self.lower as int
    }

    /// The exclusive upper bound of the iteration.
    pub closed spec fn end(self) -> int {
        self.upper as int
    }

    /// The positions the iterator has yet to yield.
    pub open spec fn remaining(self) -> Seq<int> {
        positions_from(self.cur(), self.end())
    }

    /// Yields the current position and advances by one grid unit, or returns
    /// `None` once the upper bound is reached.
    pub fn next(&mut self) -> (r: Option<i64>)
        ensures
            old(self).cur() < old(self).end() ==> r is Some && r->0 as int == old(self).cur()
                && final(self).cur() == old(self).cur() + 1 && final(self).end() == old(
                self,
            ).end(),
            old(self).cur() >= old(self).end() ==> r is None && *final(self) == *old(self),
    {
        if self.lower < self.upper {
            let a = self.lower;
            self.lower = self.lower + 1;
            Some(a)
        } else {
            None
        }
    }
}

/// A fresh segment iterator over the span `(a, b)`: it will yield exactly
/// `seg_positions(a, b)`, ascending, whatever the sign of `b - a`.
pub fn min_max_iter(a: i64, b: i64) -> (r: MinMaxResult)
    ensures
        r.cur() == min_spec(a as int, b as int),
        r.end() == max_spec(a as int, b as int),
        r.remaining() == seg_positions(a as int, b as int),
{
    let (lower, upper) = min_max(a, b);
    MinMaxResult { lower, upper }
}

} // verus!
