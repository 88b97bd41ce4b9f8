//! Items riding the conveyors, and the per-frame conveyor step.
//!
//! Each frame, an item standing on a belt is first pulled sideways toward
//! the belt's centerline (never overshooting it), then — once exactly on
//! the line — accelerated to the belt speed along the belt's facing, and
//! finally moved by its velocity for the frame. Off any tile the item
//! stops; on a freezer tile its velocity is left alone. The explicit Euler
//! integration is exact arithmetic here, but it is still meant for
//! interactive frame rates: one step moves an item by a whole
//! `velocity * dt`, however large `dt` is.

use vstd::arithmetic::div_mod::lemma_fundamental_div_mod;
use vstd::arithmetic::div_mod::lemma_fundamental_div_mod_converse;
use vstd::math::abs;
use vstd::math::min;
use vstd::prelude::*;

use crate::coords::pos_fract;
use crate::coords::FixVec;
use crate::coords::HALF_CELL;
use crate::coords::SCALE;
use crate::coords::WORLD_LIMIT;
use crate::direction::Axis2d;
use crate::direction::Side;
use crate::tilemap::Tile;

verus! {

/// The kinds of item that can ride a belt.
#[derive(Debug, Clone, Copy, PartialEq, Eq, Structural)]
pub enum Item {
    A,
    B,
    C,
    D,
}

/// Belt speed: two cells per second, in fixed-point units per second.
pub const BELT_SPEED: i64 = 2 * SCALE;

/// Longest frame delta the conveyor step accepts: ten seconds, in
/// fixed-point seconds.
pub const DT_LIMIT: i64 = 10 * SCALE;

/// Largest item coordinate the conveyor step accepts; one step inside
/// [`WORLD_LIMIT`] by more than any single step can move.
pub const ITEM_LIMIT: i64 = WORLD_LIMIT - 32 * SCALE;

/// An item's 2D velocity, in fixed-point units per second.
#[derive(Debug, Clone, Copy, PartialEq, Eq, Structural)]
pub struct Momentum(pub FixVec);

impl Default for Momentum {
    fn default() -> (r: Momentum)
        ensures
            r == Momentum(FixVec { x: 0, y: 0 }),
    {
        Momentum(FixVec { x: 0, y: 0 })
    }
}

/// Velocities the conveyor step produces: at rest or at belt speed, per
/// axis.
pub open spec fn momentum_wf(m: Momentum) -> bool {
    &&& (m.0.x == 0 || m.0.x == BELT_SPEED || m.0.x == -BELT_SPEED)
    &&& (m.0.y == 0 || m.0.y == BELT_SPEED || m.0.y == -BELT_SPEED)
}

/// Signed offset of a cross-axis coordinate from its cell's centerline,
/// in `[-HALF_CELL, HALF_CELL)`.
pub open spec fn cross_separation(c: int) -> int {
    (c + HALF_CELL) % (SCALE as int) - HALF_CELL
}

/// Farthest the centering pull moves an item in one step of `dt`.
pub open spec fn step_cap(dt: int) -> int {
    (dt * BELT_SPEED) / (SCALE as int)
}

/// One centering step: the cross-axis coordinate moves toward the
/// centerline by at most [`step_cap`], clamped so it cannot overshoot.
pub open spec fn centering_step(c: int, dt: int) -> int {
    let sep = cross_separation(c);
    if sep >= 0 {
        c - min(sep, step_cap(dt))
    } else {
        c + min(-sep, step_cap(dt))
    }
}

/// The velocity after one conveyor step for an item at `p` moving with
/// `m`, standing on `tile`.
pub open spec fn momentum_after(tile: Option<Tile>, p: FixVec, m: Momentum, dt: int) -> Momentum {
    match tile {
        None => Momentum(FixVec { x: 0, y: 0 }),
        Some(Tile::Ice(_)) => m,
        Some(Tile::Belt(side, _)) => match side.spec_axis() {
            Axis2d::X => Momentum(
                FixVec {
                    x: if cross_separation(p.y as int) == 0 {
                        ((side.spec_to_ivec().x * BELT_SPEED) as i64)
                    } else {
                        m.0.x
                    },
                    y: 0,
                },
            ),
            Axis2d::Y => Momentum(
                FixVec {
                    x: 0,
                    y: if cross_separation(p.x as int) == 0 {
                        ((side.spec_to_ivec().y * BELT_SPEED) as i64)
                    } else {
                        m.0.y
                    },
                },
            ),
        },
        Some(_) => m,
    }
}

/// The position after one conveyor step: the belt's centering pull on the
/// cross axis, then the frame's `velocity * dt` movement.
pub open spec fn position_after(tile: Option<Tile>, p: FixVec, m: Momentum, dt: int) -> FixVec {
    let mm = momentum_after(tile, p, m, dt);
    match tile {
        None => p,
        Some(Tile::Ice(_)) => FixVec {
            x: ((p.x + mm.0.x * dt / (SCALE as int)) as i64),
            y: ((p.y + mm.0.y * dt / (SCALE as int)) as i64),
        },
        Some(Tile::Belt(side, _)) => match side.spec_axis() {
            Axis2d::X => FixVec {
                x: ((p.x + mm.0.x * dt / (SCALE as int)) as i64),
                y: (centering_step(p.y as int, dt) as i64),
            },
            Axis2d::Y => FixVec {
                x: (centering_step(p.x as int, dt) as i64),
                y: ((p.y + mm.0.y * dt / (SCALE as int)) as i64),
            },
        },
        Some(_) => p,
    }
}

/// One conveyor step for one item, as the per-frame simulation runs it:
/// look at the tile under the item, adjust the velocity (stop off-tile,
/// center and accelerate on a belt, leave alone on a freezer), then move
/// by `velocity * dt`.
///
/// Combiner tiles do not carry items yet, so the step is not defined on
/// them and they are excluded here.
pub fn item_momentum_step(
    tile: Option<&Tile>,
    position: &mut FixVec,
    momentum: &mut Momentum,
    dt: i64,
)
    requires
        0 <= dt <= DT_LIMIT,
        -ITEM_LIMIT <= old(position).x <= ITEM_LIMIT,
        -ITEM_LIMIT <= old(position).y <= ITEM_LIMIT,
        momentum_wf(*old(momentum)),
        !(tile matches Some(t) && ((*t) is CombinerInput || (*t) is Combiner2x1)),
    ensures
        *final(momentum) == momentum_after(
            spec_tile_of(tile),
            *old(position),
            *old(momentum),
            dt as int,
        ),
        *final(position) == position_after(
            spec_tile_of(tile),
            *old(position),
            *old(momentum),
            dt as int,
        ),
        momentum_wf(*final(momentum)),
        final(position).bounded(),
{
    match tile {
        None => {
            momentum.0 = FixVec { x: 0, y: 0 };
        },
        Some(Tile::Ice(_)) => {},
        Some(Tile::Belt(side, _)) => {
            let cap: i64 = (dt * BELT_SPEED) / SCALE;
            match side.axis() {
                Axis2d::X => {
                    momentum.0.y = 0;
                    let sep: i64 = pos_fract(position.y + HALF_CELL) - HALF_CELL;
                    let dist: i64 = if sep < 0 {
                        -sep
                    } else {
                        sep
                    };
                    let step: i64 = if dist < cap {
                        dist
                    } else {
                        cap
                    };
                    if sep >= 0 {
                        position.y = position.y - step;
                    } else {
                        position.y = position.y + step;
                    }
                    if dist == 0 {
                        momentum.0.x = side.to_ivec().x as i64 * BELT_SPEED;
                    }
                },
                Axis2d::Y => {
                    momentum.0.x = 0;
                    let sep: i64 = pos_fract(position.x + HALF_CELL) - HALF_CELL;
                    let dist: i64 = if sep < 0 {
                        -sep
                    } else {
                        sep
                    };
                    let step: i64 = if dist < cap {
                        dist
                    } else {
                        cap
                    };
                    if sep >= 0 {
                        position.x = position.x - step;
                    } else {
                        position.x = position.x + step;
                    }
                    if dist == 0 {
                        momentum.0.y = side.to_ivec().y as i64 * BELT_SPEED;
                    }
                },
            }
        },
        Some(_) => {
            proof {
                assert(false);
            }
        },
    }
    let vx: i64 = momentum.0.x / SCALE;
    let vy: i64 = momentum.0.y / SCALE;
    proof {
        assert(momentum_wf(*momentum));
        assert(vx == 0 || vx == 2 || vx == -2);
        assert(vy == 0 || vy == 2 || vy == -2);
        lemma_speed_div(momentum.0.x as int, dt as int);
        lemma_speed_div(momentum.0.y as int, dt as int);
        assert(vx * dt == momentum.0.x * dt / (SCALE as int));
        assert(vy * dt == momentum.0.y * dt / (SCALE as int));
    }
    position.x = position.x + vx * dt;
    position.y = position.y + vy * dt;
}

/// Dividing a velocity that is zero or one belt speed by the cell scale
/// is exact, so the frame's movement `velocity * dt / SCALE` is a whole
/// multiple of `dt`.
proof fn lemma_speed_div(m: int, dt: int)
    requires
        m == 0 || m == BELT_SPEED || m == -BELT_SPEED,
        0 <= dt,
    ensures
        m * dt / (SCALE as int) == if m == BELT_SPEED {
            2 * dt
        } else if m == -BELT_SPEED {
            -2 * dt
        } else {
            0
        },
{
    if m == BELT_SPEED {
        lemma_fundamental_div_mod_converse(m * dt, SCALE as int, 2 * dt, 0);
    } else if m == -BELT_SPEED {
        lemma_fundamental_div_mod_converse(m * dt, SCALE as int, -2 * dt, 0);
    } else {
        lemma_fundamental_div_mod_converse(0, SCALE as int, 0, 0);
    }
}

/// The cross-axis coordinate after `n` conveyor steps of `dt` each.
pub open spec fn centering_iter(c: int, dt: int, n: nat) -> int
    decreases n,
{
    if n == 0 {
        c
    } else {
        centering_iter(centering_step(c, dt), dt, (n - 1) as nat)
    }
}

/// One centering step either lands exactly on the centerline (when the
/// offset is within reach of the step cap) or moves the offset toward it
/// by exactly the cap — it never overshoots.
pub proof fn lemma_centering_progress(c: int, dt: int)
    requires
        0 <= dt,
    ensures
        ({
            let sep = cross_separation(c);
            let sep2 = cross_separation(centering_step(c, dt));
            if abs(sep) <= step_cap(dt) {
                sep2 == 0
            } else {
                abs(sep2) == abs(sep) - step_cap(dt)
            }
        }),
{
    let s = SCALE as int;
    let a = c + HALF_CELL;
    let sep = cross_separation(c);
    let cap = step_cap(dt);
    assert(cap >= 0) by {
        lemma_fundamental_div_mod(dt * BELT_SPEED, s);
        if cap < 0 {
            assert(s * cap + (dt * BELT_SPEED) % s < s * 0) by (nonlinear_arith)
                requires
                    cap < 0,
                    s > 0,
                    (dt * BELT_SPEED) % s < s,
            ;
            assert(dt * BELT_SPEED >= 0) by (nonlinear_arith)
                requires
                    dt >= 0,
            ;
        }
    }
    lemma_fundamental_div_mod(a, s);
    let q = a / s;
    if sep >= 0 {
        let moved = min(sep, cap);
        assert(centering_step(c, dt) + HALF_CELL == q * s + (sep + HALF_CELL - moved)) by (
        nonlinear_arith)
            requires
                a == s * q + (a % s),
                a % s == sep + HALF_CELL,
                centering_step(c, dt) == c - moved,
                a == c + HALF_CELL,
        ;
        lemma_fundamental_div_mod_converse(
            centering_step(c, dt) + HALF_CELL,
            s,
            q,
            sep + HALF_CELL - moved,
        );
    } else {
        let moved = min(-sep, cap);
        assert(centering_step(c, dt) + HALF_CELL == q * s + (sep + HALF_CELL + moved)) by (
        nonlinear_arith)
            requires
                a == s * q + (a % s),
                a % s == sep + HALF_CELL,
                centering_step(c, dt) == c + moved,
                a == c + HALF_CELL,
        ;
        lemma_fundamental_div_mod_converse(
            centering_step(c, dt) + HALF_CELL,
            s,
            q,
            sep + HALF_CELL + moved,
        );
    }
}

/// Belt centering convergence: once `n` steps of pull cover the starting
/// offset, the item sits exactly on the belt's centerline — and it stays
/// there, since a centered item is no longer moved sideways.
pub proof fn lemma_belt_centering_converges(c: int, dt: int, n: nat)
    requires
        0 <= dt,
        abs(cross_separation(c)) <= n * step_cap(dt),
    ensures
        cross_separation(centering_iter(c, dt, n)) == 0,
    decreases n,
{
    if n == 0 {
        assert(n * step_cap(dt) == 0) by (nonlinear_arith)
            requires
                n == 0,
        ;
        assert(abs(cross_separation(c)) == 0);
    } else {
        lemma_centering_progress(c, dt);
        let c2 = centering_step(c, dt);
        assert(abs(cross_separation(c2)) <= (n - 1) * step_cap(dt)) by (nonlinear_arith)
            requires
                abs(cross_separation(c)) <= n * step_cap(dt),
                n >= 1,
                0 <= step_cap(dt),
                if abs(cross_separation(c)) <= step_cap(dt) {
                    cross_separation(c2) == 0
                } else {
                    abs(cross_separation(c2)) == abs(cross_separation(c)) - step_cap(dt)
                },
        ;
        lemma_belt_centering_converges(c2, dt, (n - 1) as nat);
    }
}

/// The flow-axis gate: a belt accelerates an item to exactly belt speed
/// along its facing the moment the item is centered on the lane, and not
/// before — an off-center item keeps its previous flow velocity.
pub proof fn lemma_flow_speed_gate(side: Side, visual: u64, p: FixVec, m: Momentum, dt: int)
    ensures
        ({
            let mm = momentum_after(Some(Tile::Belt(side, visual)), p, m, dt);
            match side.spec_axis() {
                Axis2d::X => {
                    &&& mm.0.y == 0
                    &&& cross_separation(p.y as int) == 0 ==> mm.0.x == side.spec_to_ivec().x
                        * BELT_SPEED
                    &&& cross_separation(p.y as int) != 0 ==> mm.0.x == m.0.x
                },
                Axis2d::Y => {
                    &&& mm.0.x == 0
                    &&& cross_separation(p.x as int) == 0 ==> mm.0.y == side.spec_to_ivec().y
                        * BELT_SPEED
                    &&& cross_separation(p.x as int) != 0 ==> mm.0.y == m.0.y
                },
            }
        }),
{
}

/// Runtime check of [`momentum_wf`], for a host that must validate a
/// velocity before handing it to the conveyor step.
pub fn momentum_in_range(m: Momentum) -> (r: bool)
    ensures
        r == momentum_wf(m),
{
    (m.0.x == 0 || m.0.x == BELT_SPEED || m.0.x == -BELT_SPEED) && (m.0.y == 0 || m.0.y
        == BELT_SPEED || m.0.y == -BELT_SPEED)
}

/// The sprite index an item kind is drawn with.
pub fn item_texture(textures: &crate::tilemap::TextureMap, item: Item) -> (r: usize)
    ensures
        r == match item {
            Item::A => textures.item_a,
            Item::B => textures.item_b,
            Item::C => textures.item_c,
            Item::D => textures.item_d,
        },
{
    match item {
        Item::A => textures.item_a,
        Item::B => textures.item_b,
        Item::C => textures.item_c,
        Item::D => textures.item_d,
    }
}

/// The tile value a borrowed lookup result stands for.
pub open spec fn spec_tile_of(tile: Option<&Tile>) -> Option<Tile> {
    match tile {
        None => None,
        Some(t) => Some(*t),
    }
}

} // verus!
