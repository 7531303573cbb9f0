//! Tests for Preview Builder: the per-cycle rebuild of provisional boxes.

use vaccetia::WorldPoint;
use vaccetia::editor::{MarkerWall, Pointer, StartMarker, build_pre_walls};

fn armed_at(x: i64, y: i64, z: i64) -> StartMarker {
    StartMarker { armed: true, origin: WorldPoint::new(x, y, z) }
}

fn previews_for(marker: &StartMarker, pointer_pos: WorldPoint) -> Vec<MarkerWall> {
    let mut previews: Vec<MarkerWall> = Vec::new();
    let pointer = Pointer { position: pointer_pos };
    build_pre_walls(&mut previews, marker, &pointer);
    previews
}

#[test]
fn example_scenario_drag() {
    // origin (0,0,0), first pointer point during drag (3,0,0): one x-run
    // box spanning x in [0,3], no z-run, no corner.
    let boxes = previews_for(&armed_at(0, 0, 0), WorldPoint::new(3, 0, 0));
    assert_eq!(boxes, vec![MarkerWall::XRun { min_x: 0, max_x: 3, y: 0, z: 0 }]);
}

#[test]
fn full_footprint_preview() {
    let boxes = previews_for(&armed_at(0, 0, 0), WorldPoint::new(3, 0, 2));
    assert_eq!(
        boxes,
        vec![
            MarkerWall::XRun { min_x: 0, max_x: 3, y: 0, z: 0 },
            MarkerWall::ZRun { x: 3, y: 0, min_z: 0, max_z: 2 },
            MarkerWall::CornerBox { x: 3, y: 0, z: 0 },
        ]
    );
}

#[test]
fn negative_direction_preview_spans_are_ordered() {
    let boxes = previews_for(&armed_at(2, 0, 2), WorldPoint::new(0, 0, 0));
    assert_eq!(
        boxes,
        vec![
            MarkerWall::XRun { min_x: 0, max_x: 2, y: 0, z: 2 },
            MarkerWall::ZRun { x: 0, y: 0, min_z: 0, max_z: 2 },
            MarkerWall::CornerBox { x: 0, y: 0, z: 2 },
        ]
    );
}

#[test]
fn disarmed_marker_shows_no_preview() {
    let marker = StartMarker::new();
    let boxes = previews_for(&marker, WorldPoint::new(3, 0, 2));
    assert!(boxes.is_empty());
}

#[test]
fn preview_is_fully_replaced_each_cycle() {
    // Stale boxes from an earlier cycle are discarded unconditionally,
    // even when the marker is disarmed.
    let mut previews = vec![MarkerWall::CornerBox { x: 9, y: 9, z: 9 }];
    let marker = StartMarker::new();
    let pointer = Pointer { position: WorldPoint::new(1, 0, 1) };
    build_pre_walls(&mut previews, &marker, &pointer);
    assert!(previews.is_empty());

    let mut previews = vec![MarkerWall::CornerBox { x: 9, y: 9, z: 9 }];
    let pointer = Pointer { position: WorldPoint::new(1, 0, 0) };
    build_pre_walls(&mut previews, &armed_at(0, 0, 0), &pointer);
    assert_eq!(previews, vec![MarkerWall::XRun { min_x: 0, max_x: 1, y: 0, z: 0 }]);
}

#[test]
fn zero_footprint_previews_nothing() {
    let boxes = previews_for(&armed_at(1, 0, 1), WorldPoint::new(1, 0, 1));
    assert!(boxes.is_empty());
}
