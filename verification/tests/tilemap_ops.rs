//! Tests for tilemap placement, removal, and occupancy queries.

use factory_core::coords::CellPos;
use factory_core::coords::HALF_CELL;
use factory_core::coords::SCALE;
use factory_core::direction::Side;
use factory_core::tilemap::GridSize;
use factory_core::tilemap::MachineType;
use factory_core::tilemap::TextureMap;
use factory_core::tilemap::Tile;
use factory_core::tilemap::Tilemap;

fn textures() -> TextureMap {
    TextureMap {
        delete_tool: 0,
        belt: 1,
        ice: 2,
        combiner2x1: 3,
        item_a: 4,
        item_b: 5,
        item_c: 6,
        item_d: 7,
        atlas: 99,
    }
}

#[test]
fn new_map_is_empty() {
    let map = Tilemap::new(textures());
    assert!(map.get_tile(CellPos { x: 0, y: 0 }).is_none());
    assert!(map.get_tile(CellPos { x: -5, y: 11 }).is_none());
    assert_eq!(map.atlas(), 99);
    assert_eq!(map.textures().belt, 1);
}

#[test]
fn belt_placement_stores_facing_and_visual() {
    let mut map = Tilemap::new(textures());
    let req = map.try_add(CellPos { x: 2, y: 3 }, MachineType::Belt, Side::East, 41);
    let req = req.expect("placement on an empty cell succeeds");
    assert_eq!(req.atlas_index, 1);
    assert_eq!(req.translation.x, 2 * SCALE);
    assert_eq!(req.translation.y, 3 * SCALE);
    assert_eq!(req.z_layer, 2);
    assert_eq!(req.draw_size.x, SCALE);
    assert_eq!(req.draw_size.y, SCALE);
    assert_eq!(req.turns, Side::East.to_angle());
    assert_eq!(req.visual, 41);
    match map.get_tile(CellPos { x: 2, y: 3 }) {
        Some(Tile::Belt(side, visual)) => {
            assert_eq!(*side, Side::East);
            assert_eq!(*visual, 41);
        }
        other => panic!("expected a belt tile, found {:?}", other),
    }
}

#[test]
fn failed_placement_is_idempotent_for_every_machine() {
    // Placing onto an occupied cell never mutates the map.
    let mut map = Tilemap::new(textures());
    assert!(map.try_add(CellPos { x: 0, y: 0 }, MachineType::Ice, Side::North, 1).is_some());
    for machine in [MachineType::Belt, MachineType::Ice, MachineType::Combiner2x1] {
        for facing in [Side::North, Side::East, Side::South, Side::West] {
            assert!(map.try_add(CellPos { x: 0, y: 0 }, machine, facing, 77).is_none());
        }
    }
    // The ice tile that was there first is untouched and nothing was added.
    assert!(matches!(map.get_tile(CellPos { x: 0, y: 0 }), Some(Tile::Ice(1))));
    for x in -2..3 {
        for y in -2..3 {
            if (x, y) != (0, 0) {
                assert!(map.get_tile(CellPos { x, y }).is_none());
            }
        }
    }
}

#[test]
fn combiner_claims_both_cells() {
    let mut map = Tilemap::new(textures());
    // Facing North means the input side is South; the second cell sits one
    // step toward rotate_right(South) = West.
    let req = map.try_add(CellPos { x: 0, y: 0 }, MachineType::Combiner2x1, Side::North, 8);
    let req = req.expect("both footprint cells are empty");
    assert_eq!(req.atlas_index, 3);
    assert_eq!(req.z_layer, 4);
    assert_eq!(req.draw_size.x, 2 * SCALE);
    assert_eq!(req.draw_size.y, SCALE);
    // The sprite offset (-1/2, 0) is rotated by the facing; North leaves
    // it pointing west.
    assert_eq!(req.translation.x, -HALF_CELL);
    assert_eq!(req.translation.y, 0);
    match map.get_tile(CellPos { x: 0, y: 0 }) {
        Some(Tile::Combiner2x1(c)) => {
            assert_eq!(c.input_side, Side::South);
            assert_eq!(c.inputs, (None, None));
            assert_eq!(c.visual, 8);
        }
        other => panic!("expected the combiner primary, found {:?}", other),
    }
    match map.get_tile(CellPos { x: -1, y: 0 }) {
        Some(Tile::CombinerInput(ci)) => {
            assert_eq!(ci.input_side, Side::South);
            assert_eq!(ci.parent, CellPos { x: 0, y: 0 });
        }
        other => panic!("expected the combiner input, found {:?}", other),
    }
}

#[test]
fn combiner_placement_is_atomic() {
    // Pre-occupy exactly one of the two required cells; the failed
    // attempt claims neither.
    for blocked in [CellPos { x: 0, y: 0 }, CellPos { x: -1, y: 0 }] {
        let mut map = Tilemap::new(textures());
        assert!(map.try_add(blocked, MachineType::Ice, Side::North, 5).is_some());
        assert!(
            map.try_add(CellPos { x: 0, y: 0 }, MachineType::Combiner2x1, Side::North, 6)
                .is_none()
        );
        let open = if blocked.x == 0 { CellPos { x: -1, y: 0 } } else { CellPos { x: 0, y: 0 } };
        assert!(map.get_tile(open).is_none(), "failed placement must not claim a cell");
        assert!(matches!(map.get_tile(blocked), Some(Tile::Ice(5))));
    }
}

#[test]
fn combiner_pair_cell_follows_the_facing() {
    let expected = [
        (Side::North, CellPos { x: -1, y: 0 }),
        (Side::East, CellPos { x: 0, y: 1 }),
        (Side::South, CellPos { x: 1, y: 0 }),
        (Side::West, CellPos { x: 0, y: -1 }),
    ];
    for (facing, pair) in expected {
        let mut map = Tilemap::new(textures());
        assert!(map.try_add(CellPos { x: 0, y: 0 }, MachineType::Combiner2x1, facing, 1).is_some());
        assert!(
            matches!(map.get_tile(pair), Some(Tile::CombinerInput(_))),
            "facing {:?} should claim {:?}",
            facing,
            pair
        );
    }
}

#[test]
fn removal_symmetry_for_combiners() {
    // Removing via the primary cell or via the input cell both empty
    // both cells and despawn the same visual.
    for removal_point in [CellPos { x: 0, y: 0 }, CellPos { x: -1, y: 0 }] {
        let mut map = Tilemap::new(textures());
        assert!(
            map.try_add(CellPos { x: 0, y: 0 }, MachineType::Combiner2x1, Side::North, 23)
                .is_some()
        );
        assert_eq!(map.remove(removal_point), Some(23));
        assert!(map.get_tile(CellPos { x: 0, y: 0 }).is_none());
        assert!(map.get_tile(CellPos { x: -1, y: 0 }).is_none());
    }
}

#[test]
fn removing_an_empty_cell_does_nothing() {
    let mut map = Tilemap::new(textures());
    assert_eq!(map.remove(CellPos { x: 4, y: 4 }), None);
    assert!(map.try_add(CellPos { x: 1, y: 1 }, MachineType::Belt, Side::West, 2).is_some());
    assert_eq!(map.remove(CellPos { x: 0, y: 1 }), None);
    assert!(matches!(map.get_tile(CellPos { x: 1, y: 1 }), Some(Tile::Belt(Side::West, 2))));
}

#[test]
fn removal_returns_the_stored_visual() {
    let mut map = Tilemap::new(textures());
    assert!(map.try_add(CellPos { x: 0, y: 0 }, MachineType::Belt, Side::North, 10).is_some());
    assert!(map.try_add(CellPos { x: 1, y: 0 }, MachineType::Ice, Side::North, 11).is_some());
    assert_eq!(map.remove(CellPos { x: 0, y: 0 }), Some(10));
    assert_eq!(map.remove(CellPos { x: 1, y: 0 }), Some(11));
    assert_eq!(map.remove(CellPos { x: 0, y: 0 }), None);
}

#[test]
fn contents_survive_the_shrink_after_many_removals() {
    // Exercises the capacity maintenance path: grow well past the shrink
    // floor, remove most entries, and check the survivors are intact.
    let mut map = Tilemap::new(textures());
    for x in 0..40 {
        assert!(map.try_add(CellPos { x, y: 0 }, MachineType::Belt, Side::East, x as u64).is_some());
    }
    for x in 0..30 {
        assert_eq!(map.remove(CellPos { x, y: 0 }), Some(x as u64));
    }
    for x in 30..40 {
        assert!(
            matches!(map.get_tile(CellPos { x, y: 0 }), Some(Tile::Belt(Side::East, v)) if *v == x as u64)
        );
    }
    for x in 0..30 {
        assert!(map.get_tile(CellPos { x, y: 0 }).is_none());
    }
}

#[test]
fn area_queries_see_every_cell_of_the_rectangle() {
    let mut map = Tilemap::new(textures());
    assert!(map.is_area_clear(CellPos { x: 0, y: 0 }, GridSize { x: 3, y: 2 }, CellPos {
        x: -1,
        y: 0
    }));
    assert!(map.try_add(CellPos { x: 1, y: 1 }, MachineType::Ice, Side::North, 1).is_some());
    // Rectangle [(-1,0), (2,2)) now contains the occupied (1,1).
    assert!(!map.is_area_clear(CellPos { x: 0, y: 0 }, GridSize { x: 3, y: 2 }, CellPos {
        x: -1,
        y: 0
    }));
    // A rectangle that stops short of (1,1) is still clear.
    assert!(map.is_area_clear(CellPos { x: 0, y: 0 }, GridSize { x: 2, y: 1 }, CellPos {
        x: -1,
        y: 0
    }));
    // An empty rectangle is vacuously clear.
    assert!(map.is_area_clear(CellPos { x: 1, y: 1 }, GridSize { x: 0, y: 0 }, CellPos {
        x: 0,
        y: 0
    }));
}

#[test]
fn machine_geometry() {
    assert_eq!(MachineType::Belt.size(), GridSize { x: 1, y: 1 });
    assert_eq!(MachineType::Ice.size(), GridSize { x: 1, y: 1 });
    assert_eq!(MachineType::Combiner2x1.size(), GridSize { x: 2, y: 1 });
    assert_eq!(MachineType::Belt.cursor_offset().x, 0);
    assert_eq!(MachineType::Combiner2x1.cursor_offset().x, -HALF_CELL);
    assert_eq!(MachineType::Combiner2x1.cursor_offset().y, 0);
    assert_eq!(MachineType::Belt.grid_offset(), CellPos { x: 0, y: 0 });
    assert_eq!(MachineType::Combiner2x1.grid_offset(), CellPos { x: -1, y: 0 });
}

#[test]
fn end_to_end_scenario() {
    // The whole placement lifecycle on one map.
    let mut map = Tilemap::new(textures());
    assert!(map.try_add(CellPos { x: 0, y: 0 }, MachineType::Belt, Side::North, 1).is_some());
    assert!(matches!(map.get_tile(CellPos { x: 0, y: 0 }), Some(Tile::Belt(Side::North, _))));
    assert_eq!(map.remove(CellPos { x: 0, y: 0 }), Some(1));
    assert!(map.get_tile(CellPos { x: 0, y: 0 }).is_none());
    // Combiner facing North: input side South, second cell at
    // (0,0) + rotate_right(South).to_ivec() = (-1, 0).
    assert!(map.try_add(CellPos { x: 0, y: 0 }, MachineType::Combiner2x1, Side::North, 2).is_some());
    assert!(matches!(map.get_tile(CellPos { x: 0, y: 0 }), Some(Tile::Combiner2x1(_))));
    assert!(matches!(map.get_tile(CellPos { x: -1, y: 0 }), Some(Tile::CombinerInput(_))));
    assert_eq!(map.remove(CellPos { x: -1, y: 0 }), Some(2));
    assert!(map.get_tile(CellPos { x: 0, y: 0 }).is_none());
    assert!(map.get_tile(CellPos { x: -1, y: 0 }).is_none());
}
