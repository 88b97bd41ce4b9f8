//! The sparse tilemap: the authoritative map from grid cell to occupancy
//! record, with atomic multi-cell placement and removal.

use std::collections::HashMap;

use vstd::prelude::*;

use crate::coords::CellPos;
use crate::coords::FixVec;
use crate::coords::HALF_CELL;
use crate::coords::SCALE;
use crate::direction::Side;
use crate::items::Item;

verus! {

/// Fewest entries' worth of backing storage the map keeps after shrinking.
pub const MIN_MAP_SIZE: usize = 16;

/// The kinds of machine the player can place.
#[derive(Debug, Clone, Copy, PartialEq, Eq, Structural)]
pub enum MachineType {
    Belt,
    Ice,
    Combiner2x1,
}

/// A footprint size in whole cells.
#[derive(Debug, Clone, Copy, PartialEq, Eq, Structural)]
pub struct GridSize {
    pub x: u32,
    pub y: u32,
}

/// The secondary cell of a two-cell combiner; not independently removable,
/// it delegates removal to its parent cell.
#[derive(Debug, Clone, Copy, PartialEq, Eq, Structural)]
pub struct CombinerInput {
    pub input_side: Side,
    pub parent: CellPos,
}

/// The primary cell of a two-cell combiner: holds up to one item per input
/// slot pending merge, and the handle of the machine's visual.
#[derive(Debug, Clone, Copy, PartialEq, Eq)]
pub struct Combiner2x1 {
    pub input_side: Side,
    pub inputs: (Option<Item>, Option<Item>),
    pub visual: u64,
}

/// The occupancy record stored per grid cell. The `u64` values are opaque
/// handles to host-owned visuals, returned in despawn requests on removal.
#[derive(Debug, Clone, Copy, PartialEq, Eq)]
pub enum Tile {
    Belt(Side, u64),
    Ice(u64),
    CombinerInput(CombinerInput),
    Combiner2x1(Combiner2x1),
}

/// The table of resolved visual-resource indices the host hands the core
/// once loading completes. The core never names assets, only these indices.
#[derive(Debug, Clone, Copy, PartialEq, Eq, Structural)]
pub struct TextureMap {
    pub delete_tool: usize,
    pub belt: usize,
    pub ice: usize,
    pub combiner2x1: usize,
    pub item_a: usize,
    pub item_b: usize,
    pub item_c: usize,
    pub item_d: usize,
    pub atlas: u64,
}

impl MachineType {
    /// The size of this machine in cells.
    pub open spec fn spec_size(self) -> GridSize {
        match self {
            MachineType::Combiner2x1 => GridSize { x: 2, y: 1 },
            _ => GridSize { x: 1, y: 1 },
        }
    }

    /// The size of this machine in cells.
    pub fn size(self) -> (r: GridSize)
        ensures
            r == self.spec_size(),
    {
        match self {
            MachineType::Combiner2x1 => GridSize { x: 2, y: 1 },
            _ => GridSize { x: 1, y: 1 },
        }
    }

    /// Offset of the center of this machine's sprite from its grid
    /// position, for a machine facing `North`.
    pub open spec fn spec_cursor_offset(self) -> FixVec {
        match self {
            MachineType::Combiner2x1 => FixVec { x: ((-HALF_CELL) as i64), y: 0 },
            _ => FixVec { x: 0, y: 0 },
        }
    }

    /// Offset of the center of this machine's sprite from its grid
    /// position, for a machine facing `North`.
    pub fn cursor_offset(self) -> (r: FixVec)
        ensures
            r == self.spec_cursor_offset(),
            r.bounded(),
    {
        match self {
            MachineType::Combiner2x1 => FixVec { x: -HALF_CELL, y: 0 },
            _ => FixVec { x: 0, y: 0 },
        }
    }

    /// The offset of the northwest corner of this machine's footprint from
    /// its grid position, for a machine facing `North`.
    pub open spec fn spec_grid_offset(self) -> CellPos {
        match self {
            MachineType::Combiner2x1 => CellPos { x: ((-1) as i32), y: 0 },
            _ => CellPos { x: 0, y: 0 },
        }
    }

    /// The offset of the northwest corner of this machine's footprint from
    /// its grid position, for a machine facing `North`.
    pub fn grid_offset(self) -> (r: CellPos)
        ensures
            r == self.spec_grid_offset(),
    {
        match self {
            MachineType::Combiner2x1 => CellPos { x: -1, y: 0 },
            _ => CellPos { x: 0, y: 0 },
        }
    }
}

/// A cell coordinate packed into one map key: the `x` component in the high
/// 32 bits, the `y` component in the low 32 bits.
pub open spec fn key_at(x: int, y: int) -> u64 {
    ((x as u32 as u64) << 32) | (y as u32 as u64)
}

/// The map key of a cell.
pub open spec fn spec_key(p: CellPos) -> u64 {
    key_at(p.x as int, p.y as int)
}

/// The cell whose key a value is.
pub open spec fn cell_of_key(k: u64) -> CellPos {
    CellPos { x: (k >> 32) as u32 as i32, y: k as u32 as i32 }
}

/// Packing and unpacking are mutually inverse, so keys and cells are in
/// bijection.
pub proof fn lemma_key_bijective(p: CellPos, k: u64)
    ensures
        cell_of_key(spec_key(p)) == p,
        spec_key(cell_of_key(k)) == k,
{
    let x = p.x;
    let y = p.y;
    assert(((((x as u32 as u64) << 32) | (y as u32 as u64)) >> 32) as u32 as i32 == x)
        by (bit_vector);
    assert(((((x as u32 as u64) << 32) | (y as u32 as u64)) as u32) as i32 == y) by (bit_vector);
    assert(((((k >> 32) as u32 as i32 as u32 as u64) << 32) | ((k as u32 as i32 as u32) as u64))
        == k) by (bit_vector);
}

/// Distinct cells have distinct keys.
pub proof fn lemma_key_injective(p: CellPos, q: CellPos)
    ensures
        spec_key(p) == spec_key(q) ==> p == q,
{
    if spec_key(p) == spec_key(q) {
        lemma_key_bijective(p, 0);
        lemma_key_bijective(q, 0);
    }
}

/// The exec counterpart of [`spec_key`].
fn cell_key(p: CellPos) -> (k: u64)
    ensures
        k == spec_key(p),
{
    ((p.x as u32 as u64) << 32) | (p.y as u32 as u64)
}

/// The cell that a combiner's secondary tile occupies, one step from the
/// primary cell toward the side that `rotate_right` of the input side gives.
pub open spec fn pair_cell_x(pos: CellPos, input_side: Side) -> int {
    pos.x + input_side.spec_rotate_right().spec_to_ivec().x
}

/// The `y` component companion of [`pair_cell_x`].
pub open spec fn pair_cell_y(pos: CellPos, input_side: Side) -> int {
    pos.y + input_side.spec_rotate_right().spec_to_ivec().y
}

/// [`pair_cell_x`]/[`pair_cell_y`] as a cell value; meaningful when they
/// are in `i32` range, which the map invariant guarantees for stored tiles.
pub open spec fn pair_cell(pos: CellPos, input_side: Side) -> CellPos {
    CellPos { x: pair_cell_x(pos, input_side) as i32, y: pair_cell_y(pos, input_side) as i32 }
}

/// What the map invariant demands of the tile stored for cell `p`.
pub open spec fn cell_wf(m: Map<u64, Tile>, p: CellPos) -> bool {
    match m[spec_key(p)] {
        Tile::Belt(_, _) => true,
        Tile::Ice(_) => true,
        Tile::Combiner2x1(c) => {
            let qx = pair_cell_x(p, c.input_side);
            let qy = pair_cell_y(p, c.input_side);
            &&& i32::MIN <= qx <= i32::MAX
            &&& i32::MIN <= qy <= i32::MAX
            &&& m.contains_key(key_at(qx, qy))
            &&& m[key_at(qx, qy)] matches Tile::CombinerInput(ci) && ci.input_side
                == c.input_side && ci.parent == p
        },
        Tile::CombinerInput(ci) => {
            &&& m.contains_key(spec_key(ci.parent))
            &&& m[spec_key(ci.parent)] matches Tile::Combiner2x1(c) && c.input_side
                == ci.input_side
            &&& p.x == pair_cell_x(ci.parent, ci.input_side)
            &&& p.y == pair_cell_y(ci.parent, ci.input_side)
        },
    }
}

/// The map invariant: every stored combiner half points at its other half,
/// with matching sides and exactly the footprint geometry placement wrote.
pub open spec fn map_wf(m: Map<u64, Tile>) -> bool {
    forall|p: CellPos| #[trigger] m.contains_key(spec_key(p)) ==> cell_wf(m, p)
}

/// A request to the rendering collaborator: spawn one visual for a newly
/// placed machine. `visual` is the handle the tile was stored with, so the
/// later despawn request can name the same visual.
#[derive(Debug, Clone, Copy, PartialEq, Eq, Structural)]
pub struct SpawnRequest {
    /// Index of the sprite in the resolved texture table.
    pub atlas_index: usize,
    /// World translation of the visual's center.
    pub translation: FixVec,
    /// Depth layer to draw at.
    pub z_layer: u32,
    /// Width and height to draw, in fixed-point world units.
    pub draw_size: FixVec,
    /// Rotation, in quarter turns counter-clockwise.
    pub turns: u32,
    /// The opaque handle the host will attach to the spawned visual.
    pub visual: u64,
}

/// The tile that placement stores at the targeted cell.
pub open spec fn primary_tile(machine: MachineType, facing: Side, visual: u64) -> Tile {
    match machine {
        MachineType::Belt => Tile::Belt(facing, visual),
        MachineType::Ice => Tile::Ice(visual),
        MachineType::Combiner2x1 => Tile::Combiner2x1(
            Combiner2x1 { input_side: facing.spec_opposite(), inputs: (None, None), visual },
        ),
    }
}

/// Whether placement succeeds: every cell of the machine's footprint is
/// absent from the map.
pub open spec fn try_add_succeeds(
    m: Map<u64, Tile>,
    pos: CellPos,
    machine: MachineType,
    facing: Side,
) -> bool {
    match machine {
        MachineType::Combiner2x1 => {
            let s = facing.spec_opposite();
            &&& !m.contains_key(spec_key(pos))
            &&& !m.contains_key(key_at(pair_cell_x(pos, s), pair_cell_y(pos, s)))
        },
        _ => !m.contains_key(spec_key(pos)),
    }
}

/// The map after a placement attempt: unchanged on failure; on success the
/// primary tile is stored at the target cell, and a combiner also stores
/// its secondary tile at the paired cell.
pub open spec fn try_add_result(
    m: Map<u64, Tile>,
    pos: CellPos,
    machine: MachineType,
    facing: Side,
    visual: u64,
) -> Map<u64, Tile> {
    if !try_add_succeeds(m, pos, machine, facing) {
        m
    } else {
        let with_primary = m.insert(spec_key(pos), primary_tile(machine, facing, visual));
        match machine {
            MachineType::Combiner2x1 => {
                let s = facing.spec_opposite();
                with_primary.insert(
                    key_at(pair_cell_x(pos, s), pair_cell_y(pos, s)),
                    Tile::CombinerInput(CombinerInput { input_side: s, parent: pos }),
                )
            },
            _ => with_primary,
        }
    }
}

/// Offset of the visual's center from the targeted cell's center.
pub open spec fn spec_spawn_offset(machine: MachineType, facing: Side) -> FixVec {
    match machine {
        MachineType::Combiner2x1 => facing.spec_rotate_vec(
            FixVec { x: ((-HALF_CELL) as i64), y: 0 },
        ),
        _ => FixVec { x: 0, y: 0 },
    }
}

/// The spawn request a successful placement emits.
pub open spec fn spec_spawn_request(
    textures: TextureMap,
    pos: CellPos,
    machine: MachineType,
    facing: Side,
    visual: u64,
) -> SpawnRequest {
    let offset = spec_spawn_offset(machine, facing);
    SpawnRequest {
        atlas_index: match machine {
            MachineType::Belt => textures.belt,
            MachineType::Ice => textures.ice,
            MachineType::Combiner2x1 => textures.combiner2x1,
        },
        translation: FixVec {
            x: ((pos.x * SCALE + offset.x) as i64),
            y: ((pos.y * SCALE + offset.y) as i64),
        },
        z_layer: match machine {
            MachineType::Combiner2x1 => 4u32,
            _ => 2u32,
        },
        draw_size: match machine {
            MachineType::Combiner2x1 => FixVec { x: ((2 * SCALE) as i64), y: SCALE },
            _ => FixVec { x: SCALE, y: SCALE },
        },
        turns: facing.spec_to_angle(),
        visual,
    }
}

/// Builds the spawn request a successful placement emits: the machine's
/// sprite, drawn over its whole footprint, centered on the footprint and
/// rotated to the facing.
fn build_spawn_request(
    textures: &TextureMap,
    pos: CellPos,
    machine: MachineType,
    facing: Side,
    visual: u64,
) -> (r: SpawnRequest)
    requires
        pos.bounded(),
    ensures
        r == spec_spawn_request(*textures, pos, machine, facing, visual),
{
    let offset = match machine {
        MachineType::Combiner2x1 => facing.rotate_vec(FixVec { x: -HALF_CELL, y: 0 }),
        _ => FixVec { x: 0, y: 0 },
    };
    let atlas_index = match machine {
        MachineType::Belt => textures.belt,
        MachineType::Ice => textures.ice,
        MachineType::Combiner2x1 => textures.combiner2x1,
    };
    let z_layer: u32 = match machine {
        MachineType::Combiner2x1 => 4,
        _ => 2,
    };
    let draw_size = match machine {
        MachineType::Combiner2x1 => FixVec { x: 2 * SCALE, y: SCALE },
        _ => FixVec { x: SCALE, y: SCALE },
    };
    SpawnRequest {
        atlas_index,
        translation: FixVec {
            x: (pos.x as i64) * SCALE + offset.x,
            y: (pos.y as i64) * SCALE + offset.y,
        },
        z_layer,
        draw_size,
        turns: facing.to_angle(),
        visual,
    }
}

/// Relies on `std::collections::HashMap::capacity`: how many entries the
/// map can hold without reallocating. Only steers the shrink decision;
/// nothing is assumed of the value.
#[verifier::external_body]
fn map_capacity(m: &HashMap<u64, Tile>) -> usize {
    m.capacity()
}

/// Relies on `std::collections::HashMap::shrink_to`: lowers spare capacity
/// toward the given floor while keeping every entry, so the map's contents
/// are unchanged.
#[verifier::external_body]
fn map_shrink_to(m: &mut HashMap<u64, Tile>, min_capacity: usize)
    ensures
        final(m)@ == old(m)@,
{
    m.shrink_to(min_capacity)
}

/// Adding a single-cell tile at a vacant cell preserves the map invariant.
proof fn lemma_wf_insert_single(m: Map<u64, Tile>, p: CellPos, t: Tile)
    requires
        map_wf(m),
        !m.contains_key(spec_key(p)),
        t is Belt || t is Ice,
    ensures
        map_wf(m.insert(spec_key(p), t)),
{
    let m2 = m.insert(spec_key(p), t);
    assert forall|q: CellPos| m2.contains_key(spec_key(q)) implies cell_wf(m2, q) by {
        if spec_key(q) == spec_key(p) {
            assert(m2[spec_key(q)] == t);
        } else {
            assert(m.contains_key(spec_key(q)) && cell_wf(m, q));
            match m[spec_key(q)] {
                Tile::Combiner2x1(c) => {
                    let kq = key_at(pair_cell_x(q, c.input_side), pair_cell_y(q, c.input_side));
                    assert(m.contains_key(kq));
                    assert(m2[kq] == m[kq]);
                },
                Tile::CombinerInput(ci) => {
                    assert(m.contains_key(spec_key(ci.parent)));
                    assert(m2[spec_key(ci.parent)] == m[spec_key(ci.parent)]);
                },
                _ => {},
            }
        }
    }
}

/// Adding both halves of a combiner at two vacant cells preserves the map
/// invariant.
proof fn lemma_wf_insert_combiner(m: Map<u64, Tile>, pos: CellPos, facing: Side, visual: u64)
    requires
        map_wf(m),
        pos.bounded(),
        try_add_succeeds(m, pos, MachineType::Combiner2x1, facing),
    ensures
        map_wf(try_add_result(m, pos, MachineType::Combiner2x1, facing, visual)),
{
    let s = facing.spec_opposite();
    let kp = spec_key(pos);
    let qx = pair_cell_x(pos, s);
    let qy = pair_cell_y(pos, s);
    let qc = pair_cell(pos, s);
    assert(i32::MIN <= qx <= i32::MAX && i32::MIN <= qy <= i32::MAX);
    let kq = key_at(qx, qy);
    assert(kq == spec_key(qc));
    lemma_key_injective(pos, qc);
    let m2 = try_add_result(m, pos, MachineType::Combiner2x1, facing, visual);
    assert forall|q: CellPos| m2.contains_key(spec_key(q)) implies cell_wf(m2, q) by {
        lemma_key_injective(q, pos);
        lemma_key_injective(q, qc);
        if spec_key(q) == kp {
            assert(m2[kq] == Tile::CombinerInput(CombinerInput { input_side: s, parent: pos }));
        } else if spec_key(q) == kq {
            assert(m2[kp] == primary_tile(MachineType::Combiner2x1, facing, visual));
        } else {
            assert(m.contains_key(spec_key(q)) && cell_wf(m, q));
            match m[spec_key(q)] {
                Tile::Combiner2x1(c) => {
                    let kr = key_at(pair_cell_x(q, c.input_side), pair_cell_y(q, c.input_side));
                    assert(m.contains_key(kr));
                    assert(m2[kr] == m[kr]);
                },
                Tile::CombinerInput(ci) => {
                    assert(m.contains_key(spec_key(ci.parent)));
                    assert(m2[spec_key(ci.parent)] == m[spec_key(ci.parent)]);
                },
                _ => {},
            }
        }
    }
}

/// The map after a removal at `pos`: untouched when the cell is vacant; a
/// belt or freezer leaves alone; either half of a combiner takes the other
/// half with it.
pub open spec fn remove_result(m: Map<u64, Tile>, pos: CellPos) -> Map<u64, Tile> {
    let k = spec_key(pos);
    if !m.contains_key(k) {
        m
    } else {
        match m[k] {
            Tile::Belt(_, _) => m.remove(k),
            Tile::Ice(_) => m.remove(k),
            Tile::Combiner2x1(c) => m.remove(k).remove(
                key_at(pair_cell_x(pos, c.input_side), pair_cell_y(pos, c.input_side)),
            ),
            Tile::CombinerInput(ci) => m.remove(spec_key(ci.parent)).remove(k),
        }
    }
}

/// The visual handle a removal at `pos` asks the host to despawn: the
/// removed machine's, also when the removal was delegated from a
/// combiner's input cell to its parent.
pub open spec fn removed_visual(m: Map<u64, Tile>, pos: CellPos) -> Option<u64> {
    let k = spec_key(pos);
    if !m.contains_key(k) {
        None
    } else {
        match m[k] {
            Tile::Belt(_, v) => Some(v),
            Tile::Ice(v) => Some(v),
            Tile::Combiner2x1(c) => Some(c.visual),
            Tile::CombinerInput(ci) => match m[spec_key(ci.parent)] {
                Tile::Combiner2x1(c) => Some(c.visual),
                _ => None,
            },
        }
    }
}

/// Removing a single-cell tile preserves the map invariant.
proof fn lemma_wf_remove_single(m: Map<u64, Tile>, p: CellPos)
    requires
        map_wf(m),
        m.contains_key(spec_key(p)),
        m[spec_key(p)] is Belt || m[spec_key(p)] is Ice,
    ensures
        map_wf(m.remove(spec_key(p))),
{
    let kp = spec_key(p);
    let m2 = m.remove(kp);
    assert forall|q: CellPos| m2.contains_key(spec_key(q)) implies cell_wf(m2, q) by {
        assert(m.contains_key(spec_key(q)) && cell_wf(m, q));
        match m[spec_key(q)] {
            Tile::Combiner2x1(c) => {
                let kr = key_at(pair_cell_x(q, c.input_side), pair_cell_y(q, c.input_side));
                assert(m[kr] is CombinerInput);
                assert(kr != kp);
                assert(m2[kr] == m[kr]);
            },
            Tile::CombinerInput(ci) => {
                let pk = spec_key(ci.parent);
                assert(m[pk] is Combiner2x1);
                assert(pk != kp);
                assert(m2[pk] == m[pk]);
            },
            _ => {},
        }
    }
}

/// Removing both halves of a combiner preserves the map invariant. Also
/// names the facts about the paired cell that the invariant provides.
proof fn lemma_wf_remove_combiner(m: Map<u64, Tile>, pos: CellPos)
    requires
        map_wf(m),
        m.contains_key(spec_key(pos)),
        m[spec_key(pos)] is Combiner2x1,
    ensures
        ({
            let c = combiner_at(m, pos);
            let kq = key_at(pair_cell_x(pos, c.input_side), pair_cell_y(pos, c.input_side));
            &&& i32::MIN <= pair_cell_x(pos, c.input_side) <= i32::MAX
            &&& i32::MIN <= pair_cell_y(pos, c.input_side) <= i32::MAX
            &&& m.contains_key(kq)
            &&& m[kq] == Tile::CombinerInput(
                CombinerInput { input_side: c.input_side, parent: pos },
            )
            &&& map_wf(m.remove(spec_key(pos)).remove(kq))
        }),
{
    let c = combiner_at(m, pos);
    let kp = spec_key(pos);
    let kq = key_at(pair_cell_x(pos, c.input_side), pair_cell_y(pos, c.input_side));
    assert(cell_wf(m, pos));
    assert(m[kq] matches Tile::CombinerInput(ci) && ci.input_side == c.input_side && ci.parent
        == pos);
    let m2 = m.remove(kp).remove(kq);
    assert forall|q: CellPos| m2.contains_key(spec_key(q)) implies cell_wf(m2, q) by {
        assert(m.contains_key(spec_key(q)) && cell_wf(m, q));
        match m[spec_key(q)] {
            Tile::Combiner2x1(c1) => {
                let kr = key_at(pair_cell_x(q, c1.input_side), pair_cell_y(q, c1.input_side));
                assert(m[kr] matches Tile::CombinerInput(ci1) && ci1.parent == q);
                assert(kr != kp);
                if kr == kq {
                    assert(q == pos);
                    assert(false);
                }
                assert(m2[kr] == m[kr]);
            },
            Tile::CombinerInput(ci2) => {
                let pk = spec_key(ci2.parent);
                assert(m[pk] is Combiner2x1);
                assert(pk != kq);
                if pk == kp {
                    lemma_key_injective(ci2.parent, pos);
                    assert(ci2.parent == pos);
                    assert(ci2.input_side == c.input_side);
                    assert(q.x == pair_cell_x(pos, c.input_side));
                    assert(q.y == pair_cell_y(pos, c.input_side));
                    assert(spec_key(q) == kq);
                    assert(false);
                }
                assert(m2[pk] == m[pk]);
            },
            _ => {},
        }
    }
}

/// Idempotent failed placement: an attempt at an occupied cell fails and
/// leaves the map exactly as it was, for every machine type and facing.
pub proof fn lemma_failed_placement_idempotent(
    m: Map<u64, Tile>,
    pos: CellPos,
    machine: MachineType,
    facing: Side,
    visual: u64,
)
    requires
        m.contains_key(spec_key(pos)),
    ensures
        !try_add_succeeds(m, pos, machine, facing),
        try_add_result(m, pos, machine, facing, visual) == m,
{
}

/// Combiner atomicity: a placement attempt either claims both footprint
/// cells or claims neither — when any required cell is occupied, the map
/// is exactly what it was.
pub proof fn lemma_combiner_placement_atomic(
    m: Map<u64, Tile>,
    pos: CellPos,
    facing: Side,
    visual: u64,
)
    ensures
        ({
            let s = facing.spec_opposite();
            let kq = key_at(pair_cell_x(pos, s), pair_cell_y(pos, s));
            let m2 = try_add_result(m, pos, MachineType::Combiner2x1, facing, visual);
            if try_add_succeeds(m, pos, MachineType::Combiner2x1, facing) {
                m2.contains_key(spec_key(pos)) && m2.contains_key(kq)
            } else {
                m2 == m
            }
        }),
{
}

/// The combiner record stored at a cell; meaningful when the cell holds a
/// combiner primary tile.
pub open spec fn combiner_at(m: Map<u64, Tile>, pos: CellPos) -> Combiner2x1 {
    match m[spec_key(pos)] {
        Tile::Combiner2x1(c) => c,
        _ => Combiner2x1 { input_side: Side::North, inputs: (None, None), visual: 0 },
    }
}

/// Removal symmetry: for a placed combiner, removing via the primary cell
/// and removing via the paired input cell produce the same map — one with
/// both footprint cells vacant — and despawn the same visual.
pub proof fn lemma_remove_symmetry(m: Map<u64, Tile>, pos: CellPos)
    requires
        map_wf(m),
        m.contains_key(spec_key(pos)),
        m[spec_key(pos)] is Combiner2x1,
    ensures
        ({
            let c = combiner_at(m, pos);
            let q = pair_cell(pos, c.input_side);
            &&& remove_result(m, q) == remove_result(m, pos)
            &&& removed_visual(m, q) == removed_visual(m, pos)
            &&& !remove_result(m, pos).contains_key(spec_key(pos))
            &&& !remove_result(m, pos).contains_key(spec_key(q))
        }),
{
    let c = combiner_at(m, pos);
    let kp = spec_key(pos);
    let qx = pair_cell_x(pos, c.input_side);
    let qy = pair_cell_y(pos, c.input_side);
    let q = pair_cell(pos, c.input_side);
    assert(cell_wf(m, pos));
    assert(spec_key(q) == key_at(qx, qy));
    assert(m[spec_key(q)] matches Tile::CombinerInput(ci) && ci.parent == pos && ci.input_side
        == c.input_side);
}

/// The authoritative sparse grid: maps each occupied cell to its tile, and
/// carries the resolved visual-resource table.
#[derive(Debug)]
pub struct Tilemap {
    data: HashMap<u64, Tile>,
    textures: TextureMap,
}

impl View for Tilemap {
    type V = Map<u64, Tile>;

    closed spec fn view(&self) -> Map<u64, Tile> {
        self.data@
    }
}

impl Tilemap {
    /// The invariant placement and removal preserve.
    pub open spec fn wf(self) -> bool {
        map_wf(self@)
    }

    /// An empty tilemap over a resolved texture table.
    pub fn new(textures: TextureMap) -> (r: Tilemap)
        ensures
            r@ == Map::<u64, Tile>::empty(),
            r.wf(),
            r.spec_textures() == textures,
    {
        Tilemap { data: HashMap::with_capacity(MIN_MAP_SIZE), textures }
    }

    /// The texture table this map was built with.
    pub closed spec fn spec_textures(self) -> TextureMap {
        self.textures
    }

    /// Returns the atlas handle this takes textures from.
    pub fn atlas(&self) -> (r: u64)
        ensures
            r == self.spec_textures().atlas,
    {
        self.textures.atlas
    }

    /// Returns the texture table this is using.
    pub fn textures(&self) -> (r: &TextureMap)
        ensures
            *r == self.spec_textures(),
    {
        &self.textures
    }

    /// Read-only lookup of one cell.
    pub fn get_tile(&self, tile: CellPos) -> (r: Option<&Tile>)
        ensures
            match r {
                Some(t) => self@.contains_key(spec_key(tile)) && *t == self@[spec_key(tile)],
                None => !self@.contains_key(spec_key(tile)),
            },
    {
        let k = cell_key(tile);
        self.data.get(&k)
    }

    /// True iff every cell of the rectangle `[pos + offset, pos + offset + size)`
    /// is absent from the map.
    /// Attempts placement of `tile` with its primary cell at `pos`, facing
    /// `facing_side`, storing `visual` as the machine's visual handle.
    ///
    /// A belt or freezer claims `pos` alone; a combiner also claims the
    /// cell one step toward `rotate_right` of its input side (the opposite
    /// of `facing_side`). The attempt succeeds and returns the spawn
    /// request for the machine's visual exactly when every footprint cell
    /// is vacant; otherwise the map is left untouched and no request is
    /// emitted.
    pub fn try_add(&mut self, pos: CellPos, tile: MachineType, facing_side: Side, visual: u64)
        -> (r: Option<SpawnRequest>)
        requires
            old(self).wf(),
            pos.bounded(),
        ensures
            final(self)@ == try_add_result(old(self)@, pos, tile, facing_side, visual),
            r is Some <==> try_add_succeeds(old(self)@, pos, tile, facing_side),
            r matches Some(req) ==> req == spec_spawn_request(
                old(self).spec_textures(),
                pos,
                tile,
                facing_side,
                visual,
            ),
            final(self).wf(),
            final(self).spec_textures() == old(self).spec_textures(),
    {
        let k = cell_key(pos);
        match tile {
            MachineType::Belt => {
                if self.data.contains_key(&k) {
                    None
                } else {
                    self.data.insert(k, Tile::Belt(facing_side, visual));
                    proof {
                        lemma_wf_insert_single(old(self)@, pos, Tile::Belt(facing_side, visual));
                    }
                    Some(build_spawn_request(&self.textures, pos, tile, facing_side, visual))
                }
            },
            MachineType::Ice => {
                if self.data.contains_key(&k) {
                    None
                } else {
                    self.data.insert(k, Tile::Ice(visual));
                    proof {
                        lemma_wf_insert_single(old(self)@, pos, Tile::Ice(visual));
                    }
                    Some(build_spawn_request(&self.textures, pos, tile, facing_side, visual))
                }
            },
            MachineType::Combiner2x1 => {
                let input_side = facing_side.opposite();
                let pair = pos.plus(input_side.rotate_right().to_ivec());
                let pair_key = cell_key(pair);
                if self.data.contains_key(&k) || self.data.contains_key(&pair_key) {
                    None
                } else {
                    self.data.insert(
                        k,
                        Tile::Combiner2x1(
                            Combiner2x1 { input_side, inputs: (None, None), visual },
                        ),
                    );
                    self.data.insert(
                        pair_key,
                        Tile::CombinerInput(CombinerInput { input_side, parent: pos }),
                    );
                    proof {
                        lemma_wf_insert_combiner(old(self)@, pos, facing_side, visual);
                    }
                    Some(build_spawn_request(&self.textures, pos, tile, facing_side, visual))
                }
            },
        }
    }

    /// Removes whatever machine occupies `pos`, if any, and returns the
    /// handle of the visual to despawn.
    ///
    /// A combiner is removed whole from either of its two cells: its input
    /// cell delegates to the recorded parent cell. After a removal, spare
    /// backing capacity beyond `max(MIN_MAP_SIZE, len)` is shrunk toward
    /// `max(MIN_MAP_SIZE, len + 8)`, bounding idle memory without a full
    /// reclaim on every removal.
    pub fn remove(&mut self, pos: CellPos) -> (r: Option<u64>)
        requires
            old(self).wf(),
        ensures
            final(self)@ == remove_result(old(self)@, pos),
            r == removed_visual(old(self)@, pos),
            final(self).wf(),
            final(self).spec_textures() == old(self).spec_textures(),
    {
        let k = cell_key(pos);
        let found: Option<Tile> = match self.data.get(&k) {
            None => None,
            Some(t) => Some(*t),
        };
        match found {
            None => None,
            Some(Tile::Belt(_, visual)) => {
                self.data.remove(&k);
                proof {
                    lemma_wf_remove_single(old(self)@, pos);
                }
                self.maintain_capacity();
                Some(visual)
            },
            Some(Tile::Ice(visual)) => {
                self.data.remove(&k);
                proof {
                    lemma_wf_remove_single(old(self)@, pos);
                }
                self.maintain_capacity();
                Some(visual)
            },
            Some(Tile::Combiner2x1(c)) => {
                proof {
                    lemma_wf_remove_combiner(old(self)@, pos);
                }
                let pair = pos.plus(c.input_side.rotate_right().to_ivec());
                let pair_key = cell_key(pair);
                self.data.remove(&k);
                self.data.remove(&pair_key);
                self.maintain_capacity();
                Some(c.visual)
            },
            Some(Tile::CombinerInput(ci)) => {
                proof {
                    assert(cell_wf(old(self)@, pos));
                    lemma_wf_remove_combiner(old(self)@, ci.parent);
                }
                let parent_key = cell_key(ci.parent);
                let parent_visual: u64 = match self.data.get(&parent_key) {
                    Some(Tile::Combiner2x1(c)) => c.visual,
                    _ => {
                        proof {
                            assert(false);
                        }
                        0
                    },
                };
                self.data.remove(&parent_key);
                self.data.remove(&k);
                proof {
                    assert(spec_key(pos) == key_at(
                        pair_cell_x(ci.parent, ci.input_side),
                        pair_cell_y(ci.parent, ci.input_side),
                    ));
                }
                self.maintain_capacity();
                Some(parent_visual)
            },
        }
    }

    /// Shrinks spare backing capacity after a removal, leaving the
    /// contents untouched.
    fn maintain_capacity(&mut self)
        ensures
            final(self)@ == old(self)@,
            final(self).spec_textures() == old(self).spec_textures(),
    {
        let len = self.data.len();
        let keep = if len > MIN_MAP_SIZE {
            len
        } else {
            MIN_MAP_SIZE
        };
        if map_capacity(&self.data) > keep {
            // The padded target leaves slack so a following placement does
            // not reallocate at once; the guard only keeps the addition
            // inside `usize` for the verifier.
            let padded = if len <= usize::MAX - 8 {
                len + 8
            } else {
                len
            };
            let floor = if padded > MIN_MAP_SIZE {
                padded
            } else {
                MIN_MAP_SIZE
            };
            map_shrink_to(&mut self.data, floor);
        }
    }

    #[verifier::loop_isolation(false)]
    pub fn is_area_clear(&self, cursor_position: CellPos, size: GridSize, offset: CellPos) -> (r:
        bool)
        requires
            i32::MIN <= cursor_position.x + offset.x,
            cursor_position.x + offset.x + size.x <= i32::MAX,
            i32::MIN <= cursor_position.y + offset.y,
            cursor_position.y + offset.y + size.y <= i32::MAX,
        ensures
            r <==> (forall|i: int, j: int|
                cursor_position.x + offset.x <= i < cursor_position.x + offset.x + size.x
                    && cursor_position.y + offset.y <= j < cursor_position.y + offset.y + size.y
                    ==> !self@.contains_key(#[trigger] key_at(i, j))),
    {
        let min_x: i32 = cursor_position.x + offset.x;
        let min_y: i32 = cursor_position.y + offset.y;
        let max_x: i64 = min_x as i64 + size.x as i64;
        let max_y: i64 = min_y as i64 + size.y as i64;
        let mut x: i64 = min_x as i64;
        while x < max_x
            invariant
                min_x <= x <= max_x,
                forall|i: int, j: int|
                    min_x <= i < x && min_y <= j < max_y ==> !self@.contains_key(
                        #[trigger] key_at(i, j),
                    ),
            decreases max_x - x,
        {
            let mut y: i64 = min_y as i64;
            while y < max_y
                invariant
                    min_y <= y <= max_y,
                    x < max_x,
                    forall|j: int|
                        min_y <= j < y ==> !self@.contains_key(#[trigger] key_at(x as int, j)),
                decreases max_y - y,
            {
                let cell = CellPos { x: x as i32, y: y as i32 };
                let key = cell_key(cell);
                if self.data.contains_key(&key) {
                    proof {
                        assert(self@.contains_key(key_at(x as int, y as int)));
                    }
                    return false;
                }
                proof {
                    assert(!self@.contains_key(key_at(x as int, y as int)));
                }
                y = y + 1;
            }
            x = x + 1;
        }
        true
    }
}

} // verus!
