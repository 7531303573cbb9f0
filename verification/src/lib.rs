//! A verified core for an in-scene wall-placement editor.
//!
//! Two clicks on a ground plane define a rectangular footprint; the library
//! decomposes that footprint into unit-spaced wall segments plus a corner
//! piece, tracks the two-click marker protocol, and derives the live preview
//! boxes shown before commit. All coordinates are grid-snapped integers; the
//! surrounding application owns rendering, input and ray casting, and hands
//! the library plain values.

pub mod distance;
pub mod editor;
pub mod wall;

use vstd::prelude::*;

verus! {

/// Upper bound on the magnitude of a grid coordinate. Coordinates within
/// this bound keep every displacement and translated position representable
/// in an `i64`.
pub const MAX_COORD: i64 = 0x2000_0000_0000_0000;

/// A grid-snapped 3D coordinate in the editing scene.
#[derive(Clone, Copy, PartialEq, Eq, Structural, Debug)]
pub struct WorldPoint {
    pub x: i64,
    pub y: i64,
    pub z: i64,
}

impl WorldPoint {
    /// All three coordinates lie within the grid bound.
    pub open spec fn wf(self) -> bool {
        -MAX_COORD <= self.x <= MAX_COORD
            && -MAX_COORD <= self.y <= MAX_COORD
            && -MAX_COORD <= self.z <= MAX_COORD
    }

    pub fn new(x: i64, y: i64, z: i64) -> (p: WorldPoint)
        ensures
            p.x == x,
            p.y == y,
            p.z == z,
    {
        WorldPoint { x, y, z }
    }
}

} // verus!
