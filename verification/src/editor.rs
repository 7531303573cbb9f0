//! The editor cycle: pointer projection bookkeeping, the two-click marker
//! state machine, and the Preview Builder that rebuilds the provisional
//! bounding boxes every cycle.

use vstd::prelude::*;

use crate::WorldPoint;
use crate::distance::{max_spec, min_spec, seg_count, manhattan_distance, min_max};
use crate::wall::{WallKind, WallPiece, build_wall, wall_placements, x_run, z_run};

verus! {

/// The pointer visual: it owns the most recent grid-snapped world point.
#[derive(Clone, Copy, PartialEq, Eq, Structural, Debug)]
pub struct Pointer {
    pub position: WorldPoint,
}

/// The start marker: armed with an origin by the first commit click, read
/// and cleared by the second. `origin` is meaningful only while armed.
#[derive(Clone, Copy, PartialEq, Eq, Structural, Debug)]
pub struct StartMarker {
    pub armed: bool,
    pub origin: WorldPoint,
}

impl StartMarker {
    /// While armed, the recorded origin lies within the grid bound.
    pub open spec fn wf(self) -> bool {
        self.armed ==> self.origin.wf()
    }

    /// A fresh marker: disarmed, as at session start.
    pub fn new() -> (m: StartMarker)
        ensures
            !m.armed,
            m.wf(),
    {
        StartMarker { armed: false, origin: WorldPoint { x: 0, y: 0, z: 0 } }
    }
}

/// A pointer button the input source reports on.
#[derive(Clone, Copy, PartialEq, Eq, Structural, Debug)]
pub enum PointerButton {
    /// The designated commit button.
    Primary,
    /// Any other button; ignored by the marker protocol.
    Other,
}

/// Whether a button went down or came up.
#[derive(Clone, Copy, PartialEq, Eq, Structural, Debug)]
pub enum ButtonAction {
    Pressed,
    Released,
}

/// One button-state event from the input source.
#[derive(Clone, Copy, PartialEq, Eq, Structural, Debug)]
pub struct ButtonEvent {
    pub button: PointerButton,
    pub action: ButtonAction,
}

/// The only event the marker protocol consumes: a release of the primary
/// button.
pub open spec fn is_commit_event(e: ButtonEvent) -> bool {
    e.button == PointerButton::Primary && e.action == ButtonAction::Released
}

/// Whether this cycle's event batch triggers a marker transition: only the
/// last event of the cycle is honored, and only if it is a primary release.
pub open spec fn batch_commits(events: Seq<ButtonEvent>) -> bool {
    events.len() > 0 && is_commit_event(events.last())
}

/// The marker state after one cycle of the state machine, given the current
/// pointer point and the cycle's event batch: a commit event arms a
/// disarmed marker with the pointer point as origin, and disarms an armed
/// one; anything else leaves the marker unchanged.
pub open spec fn marker_after(m: StartMarker, pointer: WorldPoint, events: Seq<ButtonEvent>) -> StartMarker {
    if batch_commits(events) {
        if m.armed {
            StartMarker { armed: false, ..m }
        } else {
            StartMarker { armed: true, origin: pointer }
        }
    } else {
        m
    }
}

/// The wall pieces one cycle of the state machine emits: the full
/// decomposition of (recorded origin, current pointer point) when a commit
/// event finds the marker armed, and nothing otherwise — in particular,
/// nothing on the arming click.
pub open spec fn emitted(m: StartMarker, pointer: WorldPoint, events: Seq<ButtonEvent>) -> Seq<
    WallPiece,
> {
    if batch_commits(events) && m.armed {
        wall_placements(m.origin, pointer)
    } else {
        Seq::empty()
    }
}

/// Marker protocol: starting disarmed, a cycle whose batch ends in a commit
/// event arms the marker with the current pointer point as origin and emits
/// nothing; a second such cycle disarms it and emits exactly the Wall
/// Builder decomposition of (recorded origin, current pointer point).
pub proof fn lemma_marker_protocol(
    m0: StartMarker,
    p1: WorldPoint,
    p2: WorldPoint,
    evs1: Seq<ButtonEvent>,
    evs2: Seq<ButtonEvent>,
)
    requires
        !m0.armed,
        batch_commits(evs1),
        batch_commits(evs2),
    ensures
        marker_after(m0, p1, evs1).armed,
        marker_after(m0, p1, evs1).origin == p1,
        emitted(m0, p1, evs1) == Seq::<WallPiece>::empty(),
        !marker_after(marker_after(m0, p1, evs1), p2, evs2).armed,
        emitted(marker_after(m0, p1, evs1), p2, evs2) == wall_placements(p1, p2),
{
}

/// Updates the pointer from this cycle's ray cast: the nearest-surface
/// intersection (already grid-snapped) replaces the held point; if the cast
/// produced no intersection, the previously held point remains unchanged.
pub fn update_pointer(pointer: &mut Pointer, hit: Option<WorldPoint>)
    ensures
        hit is Some ==> final(pointer).position == hit->0,
        hit is None ==> *final(pointer) == *old(pointer),
{
    match hit {
        Some(p) => {
            pointer.position = p;
        },
        None => {},
    }
}

/// Runs one cycle of the marker state machine over this cycle's event
/// batch. Only the last event is honored; a primary release arms a disarmed
/// marker with the current pointer point, and on an armed marker commits:
/// it invokes Wall Builder with (recorded origin, current pointer point),
/// appending the emitted pieces to `walls`, and disarms.
pub fn click_wall(
    marker: &mut StartMarker,
    pointer: &Pointer,
    events: &Vec<ButtonEvent>,
    walls: &mut Vec<WallPiece>,
)
    requires
        old(marker).wf(),
        pointer.position.wf(),
    ensures
        *final(marker) == marker_after(*old(marker), pointer.position, events@),
        final(marker).wf(),
        final(walls)@ == old(walls)@ + emitted(*old(marker), pointer.position, events@),
{
    if events.len() > 0 {
        let event = events[events.len() - 1];
        if event.button == PointerButton::Primary && event.action == ButtonAction::Released {
            if marker.armed {
                marker.armed = false;
                build_wall(walls, marker.origin, pointer.position);
            } else {
                marker.origin = pointer.position;
                marker.armed = true;
            }
        }
    }
}

/// A provisional preview visual: an axis-aligned box covering a full run,
/// or the corner cell, rebuilt from scratch every cycle. The box spans the
/// stated grid interval in its run axis; its fixed thickness in the other
/// directions is a rendering constant the scene layer owns.
#[derive(Clone, Copy, PartialEq, Eq, Structural, Debug)]
pub enum MarkerWall {
    /// The x-run box: it spans `min_x..=max_x` at the origin's y and z.
    XRun { min_x: i64, max_x: i64, y: i64, z: i64 },
    /// The z-run box: it spans `min_z..=max_z` at the destination's x and
    /// the origin's y.
    ZRun { x: i64, y: i64, min_z: i64, max_z: i64 },
    /// The corner cell box, at the destination's x and the origin's z.
    CornerBox { x: i64, y: i64, z: i64 },
}

/// The preview boxes for the footprint from `origin` to `dest`: the x-run
/// box when the x extent is nonzero, then the z-run box when the z extent
/// is, then the corner box when both are. Each run box covers the full
/// min/max span of its run rather than per-unit segments.
pub open spec fn preview_boxes(origin: WorldPoint, dest: WorldPoint) -> Seq<MarkerWall> {
    let xs = if origin.x != dest.x {
        seq![
            MarkerWall::XRun {
                min_x: min_spec(origin.x as int, dest.x as int) as i64,
                max_x: max_spec(origin.x as int, dest.x as int) as i64,
                y: origin.y,
                z: origin.z,
            },
        ]
    } else {
        Seq::empty()
    };
    let zs = if origin.z != dest.z {
        seq![
            MarkerWall::ZRun {
                x: dest.x,
                y: origin.y,
                min_z: min_spec(origin.z as int, dest.z as int) as i64,
                max_z: max_spec(origin.z as int, dest.z as int) as i64,
            },
        ]
    } else {
        Seq::empty()
    };
    let cs = if origin.x != dest.x && origin.z != dest.z {
        seq![MarkerWall::CornerBox { x: dest.x, y: origin.y, z: origin.z }]
    } else {
        Seq::empty()
    };
    xs + zs + cs
}

/// Preview consistency: for an armed marker, the preview box set matches
/// the Wall Builder decomposition of the same (origin, pointer) pair,
/// modulo per-unit versus full-span rendering. There is one run box per
/// nonzero extent and a corner box exactly when the corner piece is
/// emitted; each run box covers exactly the positions of that run's
/// segments, one unit per segment, in the same plane.
pub proof fn lemma_preview_matches_wall(origin: WorldPoint, dest: WorldPoint)
    ensures
        preview_boxes(origin, dest).len() == (if origin.x != dest.x {
            1int
        } else {
            0int
        }) + (if origin.z != dest.z {
            1int
        } else {
            0int
        }) + (if origin.x != dest.x && origin.z != dest.z {
            1int
        } else {
            0int
        }),
        wall_placements(origin, dest).len() == seg_count(origin.x as int, dest.x as int)
            + seg_count(origin.z as int, dest.z as int) + (if origin.x != dest.x && origin.z
            != dest.z {
            1int
        } else {
            0int
        }),
        origin.x != dest.x ==> ({
            let mnx = min_spec(origin.x as int, dest.x as int);
            let mxx = max_spec(origin.x as int, dest.x as int);
            &&& preview_boxes(origin, dest)[0] == (MarkerWall::XRun {
                min_x: mnx as i64,
                max_x: mxx as i64,
                y: origin.y,
                z: origin.z,
            })
            &&& x_run(origin, dest).len() == mxx - mnx
            &&& forall|i: int|
                0 <= i < mxx - mnx ==> #[trigger] x_run(origin, dest)[i] == (WallPiece {
                    kind: WallKind::XSegment,
                    position: WorldPoint { x: (mnx + i) as i64, y: origin.y, z: origin.z },
                })
        }),
        origin.z != dest.z ==> ({
            let mnz = min_spec(origin.z as int, dest.z as int);
            let mxz = max_spec(origin.z as int, dest.z as int);
            let zbox = preview_boxes(origin, dest)[if origin.x != dest.x {
                1int
            } else {
                0int
            }];
            &&& zbox == (MarkerWall::ZRun {
                x: dest.x,
                y: origin.y,
                min_z: mnz as i64,
                max_z: mxz as i64,
            })
            &&& z_run(origin, dest).len() == mxz - mnz
            &&& forall|i: int|
                0 <= i < mxz - mnz ==> #[trigger] z_run(origin, dest)[i] == (WallPiece {
                    kind: WallKind::ZSegment,
                    position: WorldPoint { x: dest.x, y: origin.y, z: (mnz + i) as i64 },
                })
        }),
        origin.x != dest.x && origin.z != dest.z ==> preview_boxes(origin, dest).last()
            == (MarkerWall::CornerBox { x: dest.x, y: origin.y, z: origin.z })
            && wall_placements(origin, dest).last() == (WallPiece {
            kind: WallKind::Corner,
            position: WorldPoint { x: dest.x, y: origin.y, z: origin.z },
        }),
{
}

/// Rebuilds the live preview for this cycle. All previously held preview
/// boxes are discarded unconditionally; only if the marker is armed are
/// fresh boxes derived from (recorded origin, current pointer point). The
/// preview therefore never persists across cycles and cannot drift from the
/// current pair.
pub fn build_pre_walls(previews: &mut Vec<MarkerWall>, marker: &StartMarker, pointer: &Pointer)
    requires
        marker.wf(),
        pointer.position.wf(),
    ensures
        !marker.armed ==> final(previews)@ == Seq::<MarkerWall>::empty(),
        marker.armed ==> final(previews)@ == preview_boxes(marker.origin, pointer.position),
{
    previews.clear();
    if marker.armed {
        let origin = marker.origin;
        let dest = pointer.position;
        let (x, z) = manhattan_distance(origin, dest);
        if x != 0 {
            let (min_x, max_x) = min_max(origin.x, origin.x + x);
            previews.push(MarkerWall::XRun { min_x, max_x, y: origin.y, z: origin.z });
        }
        if z != 0 {
            let (min_z, max_z) = min_max(origin.z, origin.z + z);
            previews.push(MarkerWall::ZRun { x: origin.x + x, y: origin.y, min_z, max_z });
        }
        if x != 0 && z != 0 {
            previews.push(MarkerWall::CornerBox { x: origin.x + x, y: origin.y, z: origin.z });
        }
        proof {
            assert(previews@ =~= preview_boxes(origin, dest));
        }
    }
}

} // verus!
