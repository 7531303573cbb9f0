//! Tests for the geometry utilities and the segment iterator.

use vaccetia::WorldPoint;
use vaccetia::distance::{min_max, min_max_iter, manhattan_distance, MinMaxResult};

fn collect(mut it: MinMaxResult) -> Vec<i64> {
    let mut out: Vec<i64> = Vec::new();
    while let Some(p) = it.next() {
        out.push(p);
    }
    out
}

#[test]
fn min_max_orders_ascending() {
    assert_eq!(min_max(1, 5), (1, 5));
    assert_eq!(min_max(5, 1), (1, 5));
    assert_eq!(min_max(-3, 2), (-3, 2));
    assert_eq!(min_max(2, -3), (-3, 2));
    assert_eq!(min_max(4, 4), (4, 4));
}

#[test]
fn min_max_symmetric_under_swap() {
    let pairs = [(0i64, 7i64), (7, 0), (-2, -9), (3, 3), (-1, 1)];
    for (a, b) in pairs {
        assert_eq!(min_max(a, b), min_max(b, a));
    }
}

#[test]
fn manhattan_distance_signed_extents() {
    let origin = WorldPoint::new(0, 0, 0);
    let dest = WorldPoint::new(3, 0, 2);
    assert_eq!(manhattan_distance(origin, dest), (3, 2));
    // origin + (dx, 0, dz) reaches dest on the x/z plane
    let (dx, dz) = manhattan_distance(origin, dest);
    assert_eq!(origin.x + dx, dest.x);
    assert_eq!(origin.z + dz, dest.z);
}

#[test]
fn manhattan_distance_negative_direction() {
    let origin = WorldPoint::new(2, 0, 2);
    let dest = WorldPoint::new(0, 0, 0);
    assert_eq!(manhattan_distance(origin, dest), (-2, -2));
}

#[test]
fn manhattan_distance_ignores_y() {
    let origin = WorldPoint::new(1, 5, 1);
    let dest = WorldPoint::new(4, -7, 3);
    assert_eq!(manhattan_distance(origin, dest), (3, 2));
}

#[test]
fn iterator_ascending_span() {
    assert_eq!(collect(min_max_iter(0, 3)), vec![0, 1, 2]);
}

#[test]
fn iterator_reorders_bounds() {
    // The span (2, 0) still yields 0, 1 ascending: direction is the
    // caller's business, not the iterator's.
    assert_eq!(collect(min_max_iter(2, 0)), vec![0, 1]);
}

#[test]
fn iterator_empty_when_bounds_meet() {
    assert_eq!(collect(min_max_iter(2, 2)), Vec::<i64>::new());
}

#[test]
fn iterator_counts_span_length() {
    // For a < b the iterator yields exactly b - a values, starting at a,
    // consecutive values one apart.
    let got = collect(min_max_iter(-2, 3));
    assert_eq!(got.len(), 5);
    assert_eq!(got[0], -2);
    for w in got.windows(2) {
        assert_eq!(w[1] - w[0], 1);
    }
}

#[test]
fn iterator_restartable() {
    // A fresh iterator per invocation: no shared cursor.
    assert_eq!(collect(min_max_iter(0, 2)), vec![0, 1]);
    assert_eq!(collect(min_max_iter(0, 2)), vec![0, 1]);
}
