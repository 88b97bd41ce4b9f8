//! The four-way facing algebra: rotations, opposites, axes, unit vectors,
//! and the fixed per-facing container.

use vstd::prelude::*;

use crate::coords::CellPos;
use crate::coords::FixVec;
use crate::coords::HALF_CELL;
use crate::coords::SCALE;

verus! {

/// One of the two axes of the grid plane.
#[derive(Debug, Clone, Copy, PartialEq, Eq, Structural)]
pub enum Axis2d {
    X,
    Y,
}

/// A cardinal facing. Used both as a machine's orientation and as a belt's
/// flow-axis selector.
#[derive(Debug, Clone, Copy, PartialEq, Eq, Structural)]
pub enum Side {
    North,
    East,
    South,
    West,
}

impl Default for Side {
    fn default() -> (r: Side)
        ensures
            r == Side::North,
    {
        Side::North
    }
}

impl Side {
    /// The facing pointing the opposite way.
    pub fn opposite(self) -> (r: Side)
        ensures
            r == self.spec_opposite(),
    {
        match self {
            Side::North => Side::South,
            Side::East => Side::West,
            Side::South => Side::North,
            Side::West => Side::East,
        }
    }

    pub open spec fn spec_opposite(self) -> Side {
        match self {
            Side::North => Side::South,
            Side::East => Side::West,
            Side::South => Side::North,
            Side::West => Side::East,
        }
    }

    /// This facing rotated a quarter turn counter-clockwise.
    pub fn rotate_left(self) -> (r: Side)
        ensures
            r == self.spec_rotate_left(),
    {
        match self {
            Side::North => Side::West,
            Side::East => Side::North,
            Side::South => Side::East,
            Side::West => Side::South,
        }
    }

    pub open spec fn spec_rotate_left(self) -> Side {
        match self {
            Side::North => Side::West,
            Side::East => Side::North,
            Side::South => Side::East,
            Side::West => Side::South,
        }
    }

    /// This facing rotated a quarter turn clockwise.
    pub fn rotate_right(self) -> (r: Side)
        ensures
            r == self.spec_rotate_right(),
    {
        match self {
            Side::North => Side::East,
            Side::East => Side::South,
            Side::South => Side::West,
            Side::West => Side::North,
        }
    }

    pub open spec fn spec_rotate_right(self) -> Side {
        match self {
            Side::North => Side::East,
            Side::East => Side::South,
            Side::South => Side::West,
            Side::West => Side::North,
        }
    }

    /// This facing as an angle, counted in quarter turns counter-clockwise
    /// with `North` at 0. The host multiplies by a quarter turn in radians
    /// when it builds a rotation for the renderer.
    pub fn to_angle(self) -> (r: u32)
        ensures
            r == self.spec_to_angle(),
    {
        match self {
            Side::North => 0,
            Side::East => 3,
            Side::South => 2,
            Side::West => 1,
        }
    }

    pub open spec fn spec_to_angle(self) -> u32 {
        match self {
            Side::North => 0u32,
            Side::East => 3u32,
            Side::South => 2u32,
            Side::West => 1u32,
        }
    }

    /// The axis this faces along (`North` and `South` face along `Y`).
    pub fn axis(self) -> (r: Axis2d)
        ensures
            r == self.spec_axis(),
    {
        match self {
            Side::North | Side::South => Axis2d::Y,
            Side::East | Side::West => Axis2d::X,
        }
    }

    pub open spec fn spec_axis(self) -> Axis2d {
        match self {
            Side::North | Side::South => Axis2d::Y,
            Side::East | Side::West => Axis2d::X,
        }
    }

    /// The unit cell vector pointing this way (`North` is +Y).
    pub fn to_ivec(self) -> (r: CellPos)
        ensures
            r == self.spec_to_ivec(),
    {
        match self {
            Side::North => CellPos { x: 0, y: 1 },
            Side::East => CellPos { x: 1, y: 0 },
            Side::South => CellPos { x: 0, y: -1 },
            Side::West => CellPos { x: -1, y: 0 },
        }
    }

    pub open spec fn spec_to_ivec(self) -> CellPos {
        match self {
            Side::North => CellPos { x: 0, y: 1 },
            Side::East => CellPos { x: 1, y: 0 },
            Side::South => CellPos { x: 0, y: ((-1) as i32) },
            Side::West => CellPos { x: ((-1) as i32), y: 0 },
        }
    }

    /// The unit world vector pointing this way, one cell long.
    pub fn to_vec(self) -> (r: FixVec)
        ensures
            r == self.spec_to_vec(),
    {
        match self {
            Side::North => FixVec { x: 0, y: SCALE },
            Side::East => FixVec { x: SCALE, y: 0 },
            Side::South => FixVec { x: 0, y: -SCALE },
            Side::West => FixVec { x: -SCALE, y: 0 },
        }
    }

    pub open spec fn spec_to_vec(self) -> FixVec {
        match self {
            Side::North => FixVec { x: 0, y: SCALE },
            Side::East => FixVec { x: SCALE, y: 0 },
            Side::South => FixVec { x: 0, y: ((-SCALE) as i64) },
            Side::West => FixVec { x: ((-SCALE) as i64), y: 0 },
        }
    }

    /// Takes a vector oriented `North` and returns it oriented this way.
    pub fn rotate_vec(self, v: FixVec) -> (r: FixVec)
        requires
            v.bounded(),
        ensures
            r == self.spec_rotate_vec(v),
            r.bounded(),
    {
        match self {
            Side::North => v,
            Side::East => FixVec { x: v.y, y: -v.x },
            Side::South => FixVec { x: -v.x, y: -v.y },
            Side::West => FixVec { x: -v.y, y: v.x },
        }
    }

    pub open spec fn spec_rotate_vec(self, v: FixVec) -> FixVec {
        match self {
            Side::North => v,
            Side::East => FixVec { x: v.y, y: -v.x as i64 },
            Side::South => FixVec { x: -v.x as i64, y: -v.y as i64 },
            Side::West => FixVec { x: -v.y as i64, y: v.x },
        }
    }
}

/// The facings rotate in a four-cycle: one left turn undoes one right turn,
/// two applications of `opposite` cancel, and two left turns reach the
/// opposite facing.
pub proof fn lemma_facing_algebra(f: Side)
    ensures
        f.spec_rotate_right().spec_rotate_left() == f,
        f.spec_rotate_left().spec_rotate_right() == f,
        f.spec_opposite().spec_opposite() == f,
        f.spec_rotate_left().spec_rotate_left() == f.spec_opposite(),
        f.spec_rotate_right().spec_rotate_right() == f.spec_opposite(),
{
}

/// A facing's unit vector is nonzero exactly on its own axis.
pub proof fn lemma_unit_vector_on_axis(f: Side)
    ensures
        f.spec_axis() == Axis2d::X ==> f.spec_to_vec().y == 0 && f.spec_to_vec().x != 0,
        f.spec_axis() == Axis2d::Y ==> f.spec_to_vec().x == 0 && f.spec_to_vec().y != 0,
        f.spec_to_ivec().x as i64 * SCALE == f.spec_to_vec().x,
        f.spec_to_ivec().y as i64 * SCALE == f.spec_to_vec().y,
{
}

/// Where a facing comes in the North-East-South-West enumeration order.
pub open spec fn side_order(f: Side) -> int {
    match f {
        Side::North => 0,
        Side::East => 1,
        Side::South => 2,
        Side::West => 3,
    }
}

/// The signed projection of a hit vector's offset from the cell center
/// onto a facing's unit vector: how far toward that facing's edge of the
/// cell the hit lies.
pub open spec fn side_projection(f: Side, hit: FixVec) -> int {
    match f {
        Side::North => hit.y - HALF_CELL,
        Side::East => hit.x - HALF_CELL,
        Side::South => HALF_CELL - hit.y,
        Side::West => HALF_CELL - hit.x,
    }
}

/// Picks, among the four facings, the one whose edge of the cell the hit
/// vector lies nearest: the facing with the largest signed projection of
/// `hit - (HALF_CELL, HALF_CELL)`, ties broken by enumeration order
/// (first maximum wins). Used to infer an intended belt facing from a raw
/// click inside a cell.
pub fn closest_facing_to_offset(hit: FixVec) -> (r: Side)
    requires
        hit.bounded(),
    ensures
        forall|f: Side| side_projection(f, hit) <= side_projection(r, hit),
        forall|f: Side|
            side_order(f) < side_order(r) ==> side_projection(f, hit) < side_projection(r, hit),
{
    let mut best = Side::North;
    let mut best_value: i64 = hit.y - HALF_CELL;
    if hit.x - HALF_CELL > best_value {
        best = Side::East;
        best_value = hit.x - HALF_CELL;
    }
    if HALF_CELL - hit.y > best_value {
        best = Side::South;
        best_value = HALF_CELL - hit.y;
    }
    if HALF_CELL - hit.x > best_value {
        best = Side::West;
        best_value = HALF_CELL - hit.x;
    }
    proof {
        assert(best_value == side_projection(best, hit));
        assert(forall|f: Side| side_projection(f, hit) <= best_value) by {
            assert(side_projection(Side::North, hit) <= best_value);
            assert(side_projection(Side::East, hit) <= best_value);
            assert(side_projection(Side::South, hit) <= best_value);
            assert(side_projection(Side::West, hit) <= best_value);
        }
    }
    best
}

/// A fixed container holding exactly one `T` per facing, in
/// North-East-South-West order.
#[derive(Debug, Clone, Copy, PartialEq, Eq)]
pub struct SideArr<T> {
    pub north: T,
    pub east: T,
    pub south: T,
    pub west: T,
}

impl<T> SideArr<T> {
    pub open spec fn spec_get(&self, side: Side) -> &T {
        match side {
            Side::North => &self.north,
            Side::East => &self.east,
            Side::South => &self.south,
            Side::West => &self.west,
        }
    }

    /// The entry for one facing.
    pub fn get(&self, side: Side) -> (r: &T)
        ensures
            r == self.spec_get(side),
    {
        match side {
            Side::North => &self.north,
            Side::East => &self.east,
            Side::South => &self.south,
            Side::West => &self.west,
        }
    }
}

} // verus!
