//! Fixed-point world coordinates and integer cell coordinates.
//!
//! A world coordinate is an `i64` counting [`SCALE`]ths of a cell, so every
//! coordinate transform in this crate is exact integer arithmetic. A cell
//! coordinate is a plain `i32` pair.

use vstd::prelude::*;

verus! {

/// Fixed-point units per cell.
pub const SCALE: i64 = 65536;

/// Half a cell, in fixed-point units.
pub const HALF_CELL: i64 = 32768;

/// Largest magnitude of a world coordinate component the core works with.
/// Keeps every intermediate sum far inside the `i64` range.
pub const WORLD_LIMIT: i64 = 0x200_0000_0000;

/// Largest magnitude of a cell coordinate component produced from a bounded
/// world coordinate; chosen so that `CELL_LIMIT * SCALE == WORLD_LIMIT`.
pub const CELL_LIMIT: i32 = 0x200_0000;

/// A continuous 2D world-space vector in fixed-point units.
#[derive(Debug, Clone, Copy, PartialEq, Eq, Structural)]
pub struct FixVec {
    pub x: i64,
    pub y: i64,
}

/// An integer 2D cell coordinate.
#[derive(Debug, Clone, Copy, PartialEq, Eq, Structural)]
pub struct CellPos {
    pub x: i32,
    pub y: i32,
}

impl FixVec {
    /// Both components within [`WORLD_LIMIT`].
    pub open spec fn bounded(self) -> bool {
        -WORLD_LIMIT <= self.x <= WORLD_LIMIT && -WORLD_LIMIT <= self.y <= WORLD_LIMIT
    }
}

impl CellPos {
    /// Both components within [`CELL_LIMIT`].
    pub open spec fn bounded(self) -> bool {
        -CELL_LIMIT <= self.x <= CELL_LIMIT && -CELL_LIMIT <= self.y <= CELL_LIMIT
    }

    /// Componentwise sum.
    pub fn plus(self, o: CellPos) -> (r: CellPos)
        requires
            self.x + o.x <= i32::MAX,
            i32::MIN <= self.x + o.x,
            self.y + o.y <= i32::MAX,
            i32::MIN <= self.y + o.y,
        ensures
            r.x == self.x + o.x,
            r.y == self.y + o.y,
    {
        CellPos { x: self.x + o.x, y: self.y + o.y }
    }
}

/// The nonnegative remainder of a fixed-point coordinate within its cell:
/// `x` reduced modulo [`SCALE`] into `[0, SCALE)`.
pub fn pos_fract(x: i64) -> (r: i64)
    requires
        -WORLD_LIMIT - SCALE <= x <= WORLD_LIMIT + SCALE,
    ensures
        r == x as int % SCALE as int,
        0 <= r < SCALE,
{
    let m: i64 = x % SCALE;
    if m < 0 {
        m + SCALE
    } else {
        m
    }
}

} // verus!
