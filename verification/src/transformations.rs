//! Exact transforms between continuous world space and the discrete grid.
//!
//! World space is fixed-point ([`crate::coords`]); cell boundaries sit on
//! half-integer lines, so a cell's center is at its integer coordinate. The
//! screen-to-world step depends on the host's camera and is the host's job;
//! it hands this layer a bounded world position and gets back the cell and
//! the in-cell hit vector.

use vstd::arithmetic::div_mod::lemma_fundamental_div_mod;
use vstd::arithmetic::div_mod::lemma_fundamental_div_mod_converse;
use vstd::prelude::*;

use crate::coords::CellPos;
use crate::coords::FixVec;
use crate::coords::CELL_LIMIT;
use crate::coords::HALF_CELL;
use crate::coords::SCALE;
use crate::coords::WORLD_LIMIT;
use crate::direction::Side;

verus! {

/// A position on the grid calculated from a position in world space.
#[derive(Debug, Clone, Copy, PartialEq, Eq, Structural)]
pub struct GridPos {
    /// The cell the position is over.
    pub tile: CellPos,
    /// Where within that cell the position is; each component in
    /// `[0, SCALE)`.
    pub hitvec: FixVec,
}

impl GridPos {
    /// A well-formed grid position: the hit vector lies inside one cell and
    /// the cell itself is in the range the core works with.
    pub open spec fn wf(self) -> bool {
        &&& 0 <= self.hitvec.x < SCALE
        &&& 0 <= self.hitvec.y < SCALE
        &&& self.tile.bounded()
    }
}

/// The cell index that a world coordinate component falls in, once shifted
/// by half a cell so that cell boundaries align on half-integer lines.
pub open spec fn grid_cell_of(w: int) -> int {
    (w + HALF_CELL) / (SCALE as int)
}

/// The sub-cell remainder of a world coordinate component, in `[0, SCALE)`.
pub open spec fn grid_frac_of(w: int) -> int {
    (w + HALF_CELL) % (SCALE as int)
}

/// Shift that makes any bounded world coordinate nonnegative before
/// dividing; a whole multiple of [`SCALE`].
const WORLD_SHIFT: i64 = 0x200_0001_0000;

/// [`WORLD_SHIFT`] counted in cells.
const WORLD_SHIFT_CELLS: i64 = 0x200_0001;

/// One component of the world-to-grid conversion: the cell index and the
/// nonnegative in-cell remainder.
fn split_world_coord(w: i64) -> (r: (i32, i64))
    requires
        -WORLD_LIMIT <= w <= WORLD_LIMIT,
    ensures
        r.0 == grid_cell_of(w as int),
        r.1 == grid_frac_of(w as int),
        0 <= r.1 < SCALE,
        -CELL_LIMIT <= r.0 <= CELL_LIMIT,
{
    let shifted: u64 = (w + HALF_CELL + WORLD_SHIFT) as u64;
    let q: u64 = shifted / (SCALE as u64);
    let rem: u64 = shifted % (SCALE as u64);
    proof {
        lemma_fundamental_div_mod(shifted as int, SCALE as int);
        assert(WORLD_SHIFT == WORLD_SHIFT_CELLS * SCALE) by (nonlinear_arith);
        lemma_fundamental_div_mod_converse(
            w + HALF_CELL,
            SCALE as int,
            q - WORLD_SHIFT_CELLS,
            rem as int,
        );
    }
    let cell: i64 = (q as i64) - WORLD_SHIFT_CELLS;
    (cell as i32, rem as i64)
}

/// Converts a position in world space to a position in grid space: the
/// position is shifted by half a cell, the whole cells give the tile, and
/// the nonnegative remainder gives the hit vector.
pub fn world_to_grid_pos(world_pos: FixVec) -> (r: GridPos)
    requires
        world_pos.bounded(),
    ensures
        r.tile.x == grid_cell_of(world_pos.x as int),
        r.tile.y == grid_cell_of(world_pos.y as int),
        r.hitvec.x == grid_frac_of(world_pos.x as int),
        r.hitvec.y == grid_frac_of(world_pos.y as int),
        r.wf(),
{
    let (cx, hx) = split_world_coord(world_pos.x);
    let (cy, hy) = split_world_coord(world_pos.y);
    GridPos { tile: CellPos { x: cx, y: cy }, hitvec: FixVec { x: hx, y: hy } }
}

/// The world position of a cell's center: its integer coordinates scaled to
/// fixed-point units.
pub fn to_world_center(cell: CellPos) -> (r: FixVec)
    requires
        cell.bounded(),
    ensures
        r.x == cell.x as int * SCALE,
        r.y == cell.y as int * SCALE,
        r.bounded(),
{
    FixVec { x: (cell.x as i64) * SCALE, y: (cell.y as i64) * SCALE }
}

/// Round-trip: converting any point of a cell back to grid space recovers
/// exactly that cell and that hit vector. The point with hit vector `h` in
/// cell `c` sits at `c * SCALE + h - HALF_CELL` on each axis.
pub proof fn lemma_world_grid_round_trip(c: int, h: int)
    requires
        0 <= h < SCALE,
    ensures
        grid_cell_of(c * SCALE + h - HALF_CELL) == c,
        grid_frac_of(c * SCALE + h - HALF_CELL) == h,
{
    lemma_fundamental_div_mod_converse(c * SCALE + h, SCALE as int, c, h);
}

/// A placement pose: a translation to a cell's center, a depth layer, and a
/// rotation given as quarter turns counter-clockwise. The host turns this
/// into whatever transform its renderer expects.
#[derive(Debug, Clone, Copy, PartialEq, Eq, Structural)]
pub struct Pose {
    pub translation: FixVec,
    pub z_layer: u32,
    pub turns: u32,
}

/// The pose that places a machine at a cell: translation at the cell's
/// center, the given depth layer, and the facing's rotation.
pub fn transform_from_grid_pos(grid_pos: CellPos, z_layer: u32, facing_side: Side) -> (r: Pose)
    requires
        grid_pos.bounded(),
    ensures
        r.translation.x == grid_pos.x as int * SCALE,
        r.translation.y == grid_pos.y as int * SCALE,
        r.z_layer == z_layer,
        r.turns == facing_side.spec_to_angle(),
        r.translation.bounded(),
{
    let translation = to_world_center(grid_pos);
    Pose { translation, z_layer, turns: facing_side.to_angle() }
}

} // verus!
