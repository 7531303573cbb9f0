//! Wall Builder: decomposes the footprint between an origin and a
//! destination point into unit-spaced wall segments along each axis plus a
//! single corner piece, and emits the placements into the world.

use vstd::prelude::*;

use crate::WorldPoint;
use crate::distance::{max_spec, min_spec, seg_count, seg_positions, manhattan_distance, min_max_iter};

verus! {

/// How a placed piece is oriented and which model it instantiates.
#[derive(Clone, Copy, PartialEq, Eq, Structural, Debug)]
pub enum WallKind {
    /// A unit wall segment of the x-axis run, rotated perpendicular to it.
    XSegment,
    /// A unit wall segment of the z-axis run, in the default orientation.
    ZSegment,
    /// The column joining the two runs, present only when both runs are.
    Corner,
}

/// One placed piece: a kind and the world position of its anchor.
#[derive(Clone, Copy, PartialEq, Eq, Structural, Debug)]
pub struct WallPiece {
    pub kind: WallKind,
    pub position: WorldPoint,
}

/// The pieces of one x-axis run: an `XSegment` at `(p, y, z)` for each
/// position `p` the segment iterator over `(a, b)` yields.
pub open spec fn x_pieces(a: int, b: int, y: i64, z: i64) -> Seq<WallPiece> {
    seg_positions(a, b).map_values(
        |p: int|
            WallPiece {
                kind: WallKind::XSegment,
                position: WorldPoint { x: p as i64, y: y, z: z },
            },
    )
}

/// The pieces of one z-axis run: a `ZSegment` at `(x, y, p)` for each
/// position `p` the segment iterator over `(a, b)` yields.
pub open spec fn z_pieces(a: int, b: int, x: i64, y: i64) -> Seq<WallPiece> {
    seg_positions(a, b).map_values(
        |p: int|
            WallPiece {
                kind: WallKind::ZSegment,
                position: WorldPoint { x: x, y: y, z: p as i64 },
            },
    )
}

/// The x-run segments of the footprint from `origin` to `dest`: one piece
/// per unit cell between `origin.x` and `dest.x`, ascending, all at the
/// origin's y and z. Empty exactly when the x extent is zero.
pub open spec fn x_run(origin: WorldPoint, dest: WorldPoint) -> Seq<WallPiece> {
    x_pieces(origin.x as int, dest.x as int, origin.y, origin.z)
}

/// The z-run segments: one piece per unit cell between `origin.z` and
/// `dest.z`, ascending, all at the destination's x and the origin's y.
/// Empty exactly when the z extent is zero.
pub open spec fn z_run(origin: WorldPoint, dest: WorldPoint) -> Seq<WallPiece> {
    z_pieces(origin.z as int, dest.z as int, dest.x, origin.y)
}

/// The corner piece, emitted exactly when both extents are nonzero: the
/// elbow joint at the destination's x and the origin's z.
pub open spec fn corner_piece(origin: WorldPoint, dest: WorldPoint) -> Seq<WallPiece> {
    if origin.x != dest.x && origin.z != dest.z {
        seq![
            WallPiece {
                kind: WallKind::Corner,
                position: WorldPoint { x: dest.x, y: origin.y, z: origin.z },
            },
        ]
    } else {
        Seq::empty()
    }
}

/// Everything Wall Builder emits for the footprint from `origin` to `dest`:
/// the x-run, then the z-run, then the corner. A zero-length footprint
/// (`origin.x == dest.x && origin.z == dest.z`) emits nothing: a no-op, not
/// an error.
pub open spec fn wall_placements(origin: WorldPoint, dest: WorldPoint) -> Seq<WallPiece> {
    x_run(origin, dest) + z_run(origin, dest) + corner_piece(origin, dest)
}

/// Decomposition completeness: when both extents are nonzero, Wall Builder
/// emits `count_x + count_z` segments plus exactly one corner — the corner
/// is the last piece and no other piece is one; when both extents are zero,
/// it emits nothing.
pub proof fn lemma_decomposition_complete(origin: WorldPoint, dest: WorldPoint)
    ensures
        origin.x != dest.x && origin.z != dest.z ==> wall_placements(origin, dest).len()
            == seg_count(origin.x as int, dest.x as int) + seg_count(
            origin.z as int,
            dest.z as int,
        ) + 1,
        origin.x != dest.x && origin.z != dest.z ==> wall_placements(origin, dest).last().kind
            == WallKind::Corner,
        forall|i: int|
            0 <= i < wall_placements(origin, dest).len() - 1 ==> (#[trigger] wall_placements(
                origin,
                dest,
            )[i]).kind != WallKind::Corner,
        origin.x == dest.x && origin.z == dest.z ==> wall_placements(origin, dest).len() == 0,
{
    let w = wall_placements(origin, dest);
    let xs = x_run(origin, dest);
    let zs = z_run(origin, dest);
    assert forall|i: int| 0 <= i < w.len() - 1 implies (#[trigger] w[i]).kind != WallKind::Corner by {
        if i < xs.len() {
            assert(w[i] == xs[i]);
        } else if i < xs.len() + zs.len() {
            assert(w[i] == zs[i - xs.len()]);
        }
    }
}

/// Appends one x-axis run to `walls`: an `XSegment` at each position the
/// segment iterator over `(a, b)` yields, at the given y and z.
fn push_x_segments(walls: &mut Vec<WallPiece>, a: i64, b: i64, y: i64, z: i64)
    ensures
        final(walls)@ == old(walls)@ + x_pieces(a as int, b as int, y, z),
{
    let ghost lo = min_spec(a as int, b as int);
    let ghost hi = max_spec(a as int, b as int);
    let ghost pieces = x_pieces(a as int, b as int, y, z);
    let ghost walls0 = walls@;
    let mut it = min_max_iter(a, b);
    loop
        invariant
            lo == min_spec(a as int, b as int),
            hi == max_spec(a as int, b as int),
            it.end() == hi,
            lo <= it.cur() <= hi,
            pieces == x_pieces(a as int, b as int, y, z),
            pieces.len() == hi - lo,
            walls@ == walls0 + pieces.take(it.cur() - lo),
        ensures
            walls@ == walls0 + pieces,
        decreases hi - it.cur(),
    {
        let ghost k = it.cur() - lo;
        match it.next() {
            Some(p) => {
                let piece = WallPiece {
                    kind: WallKind::XSegment,
                    position: WorldPoint { x: p, y: y, z: z },
                };
                proof {
                    assert(0 <= k < pieces.len());
                    assert(seg_positions(a as int, b as int)[k] == lo + k);
                    assert(pieces[k].position.x == (lo + k) as i64);
                    assert(p as int == lo + k);
                    assert(piece == pieces[k]);
                    assert(pieces.take(k + 1) =~= pieces.take(k).push(pieces[k]));
                }
                walls.push(piece);
            },
            None => {
                proof {
                    assert(pieces.take(it.cur() - lo) =~= pieces);
                }
                break ;
            },
        }
    }
}

/// Appends one z-axis run to `walls`: a `ZSegment` at each position the
/// segment iterator over `(a, b)` yields, at the given x and y.
fn push_z_segments(walls: &mut Vec<WallPiece>, a: i64, b: i64, x: i64, y: i64)
    ensures
        final(walls)@ == old(walls)@ + z_pieces(a as int, b as int, x, y),
{
    let ghost lo = min_spec(a as int, b as int);
    let ghost hi = max_spec(a as int, b as int);
    let ghost pieces = z_pieces(a as int, b as int, x, y);
    let ghost walls0 = walls@;
    let mut it = min_max_iter(a, b);
    loop
        invariant
            lo == min_spec(a as int, b as int),
            hi == max_spec(a as int, b as int),
            it.end() == hi,
            lo <= it.cur() <= hi,
            pieces == z_pieces(a as int, b as int, x, y),
            pieces.len() == hi - lo,
            walls@ == walls0 + pieces.take(it.cur() - lo),
        ensures
            walls@ == walls0 + pieces,
        decreases hi - it.cur(),
    {
        let ghost k = it.cur() - lo;
        match it.next() {
            Some(p) => {
                let piece = WallPiece {
                    kind: WallKind::ZSegment,
                    position: WorldPoint { x: x, y: y, z: p },
                };
                proof {
                    assert(0 <= k < pieces.len());
                    assert(seg_positions(a as int, b as int)[k] == lo + k);
                    assert(pieces[k].position.z == (lo + k) as i64);
                    assert(p as int == lo + k);
                    assert(piece == pieces[k]);
                    assert(pieces.take(k + 1) =~= pieces.take(k).push(pieces[k]));
                }
                walls.push(piece);
            },
            None => {
                proof {
                    assert(pieces.take(it.cur() - lo) =~= pieces);
                }
                break ;
            },
        }
    }
}

/// Emits the decomposition of the footprint from `origin` to `dest` into
/// `walls`, in order: the x-run segments (when `dest.x != origin.x`), the
/// z-run segments (when `dest.z != origin.z`), and exactly one corner piece
/// when both extents are nonzero. Placement is one-shot: the new pieces are
/// appended after whatever `walls` already held, so committing the same
/// footprint twice duplicates geometry.
pub fn build_wall(walls: &mut Vec<WallPiece>, origin: WorldPoint, dest: WorldPoint)
    requires
        origin.wf(),
        dest.wf(),
    ensures
        final(walls)@ == old(walls)@ + wall_placements(origin, dest),
{
    let (x, z) = manhattan_distance(origin, dest);
    if x != 0 {
        push_x_segments(walls, origin.x, origin.x + x, origin.y, origin.z);
    } else {
        proof {
            assert(x_run(origin, dest) =~= Seq::empty());
        }
    }
    if z != 0 {
        push_z_segments(walls, origin.z, origin.z + z, origin.x + x, origin.y);
    } else {
        proof {
            assert(z_run(origin, dest) =~= Seq::empty());
        }
    }
    if x != 0 && z != 0 {
        walls.push(
            WallPiece {
                kind: WallKind::Corner,
                position: WorldPoint { x: origin.x + x, y: origin.y, z: origin.z },
            },
        );
    }
    proof {
        assert(walls@ =~= old(walls)@ + wall_placements(origin, dest));
    }
}

} // verus!
