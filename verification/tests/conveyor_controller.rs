//! Tests for the conveyor step and the placement/tool controller.

use factory_core::coords::pos_fract;
use factory_core::coords::CellPos;
use factory_core::coords::FixVec;
use factory_core::coords::HALF_CELL;
use factory_core::coords::SCALE;
use factory_core::direction::Side;
use factory_core::items::item_momentum_step;
use factory_core::items::item_texture;
use factory_core::items::Item;
use factory_core::items::Momentum;
use factory_core::items::BELT_SPEED;
use factory_core::placing::change_placing_direction;
use factory_core::placing::use_tool;
use factory_core::placing::MouseInput;
use factory_core::placing::Tool;
use factory_core::placing::ToolDirection;
use factory_core::placing::ToolOutcome;
use factory_core::tilemap::MachineType;
use factory_core::tilemap::TextureMap;
use factory_core::tilemap::Tile;
use factory_core::tilemap::Tilemap;
use factory_core::transformations::world_to_grid_pos;

fn textures() -> TextureMap {
    TextureMap {
        delete_tool: 0,
        belt: 1,
        ice: 2,
        combiner2x1: 3,
        item_a: 4,
        item_b: 5,
        item_c: 6,
        item_d: 7,
        atlas: 99,
    }
}

/// A frame delta of roughly 16 milliseconds in fixed-point seconds.
const DT: i64 = 1049;

#[test]
fn item_stops_off_any_tile() {
    let map = Tilemap::new(textures());
    let mut pos = FixVec { x: 100, y: 200 };
    let mut momentum = Momentum(FixVec { x: BELT_SPEED, y: 0 });
    let cell = world_to_grid_pos(pos).tile;
    item_momentum_step(map.get_tile(cell), &mut pos, &mut momentum, DT);
    assert_eq!(momentum, Momentum(FixVec { x: 0, y: 0 }));
    assert_eq!(pos, FixVec { x: 100, y: 200 });
}

#[test]
fn item_glides_over_a_freezer() {
    let mut map = Tilemap::new(textures());
    assert!(map.try_add(CellPos { x: 0, y: 0 }, MachineType::Ice, Side::North, 1).is_some());
    let mut pos = FixVec { x: 0, y: 0 };
    let mut momentum = Momentum(FixVec { x: BELT_SPEED, y: 0 });
    item_momentum_step(map.get_tile(CellPos { x: 0, y: 0 }), &mut pos, &mut momentum, DT);
    // Velocity untouched, position advanced by velocity * dt.
    assert_eq!(momentum, Momentum(FixVec { x: BELT_SPEED, y: 0 }));
    assert_eq!(pos, FixVec { x: 2 * DT, y: 0 });
}

#[test]
fn belt_centering_converges_then_accelerates() {
    // An item dropped on a north belt with a cross-axis offset of
    // roughly 0.3 cells is pulled onto the centerline over several frames,
    // picking up flow velocity only once centered — never before.
    let mut map = Tilemap::new(textures());
    for y in 0..3 {
        assert!(map.try_add(CellPos { x: 0, y }, MachineType::Belt, Side::North, y as u64).is_some());
    }
    let start_offset: i64 = 19661; // ~0.3 cells
    let mut pos = FixVec { x: start_offset, y: 0 };
    let mut momentum = Momentum::default();
    let pull_per_step: i64 = 2 * DT; // dt * BELT_SPEED / SCALE
    let mut steps_off_center = 0;
    loop {
        let cell = world_to_grid_pos(pos).tile;
        let offset_before = pos_fract(pos.x + HALF_CELL) - HALF_CELL;
        item_momentum_step(map.get_tile(cell), &mut pos, &mut momentum, DT);
        if offset_before != 0 {
            // Not yet centered at the start of the step: the flow axis
            // must not have accelerated, and the offset shrank by exactly
            // the capped pull (without overshooting).
            assert_eq!(momentum.0.y, 0, "accelerated before reaching the centerline");
            assert_eq!(momentum.0.x, 0);
            let offset_after = pos_fract(pos.x + HALF_CELL) - HALF_CELL;
            let expected = if offset_before > pull_per_step { offset_before - pull_per_step } else { 0 };
            assert_eq!(offset_after, expected);
            steps_off_center += 1;
            assert!(steps_off_center < 100, "centering did not converge");
        } else {
            // Centered: this very step set the flow velocity to exactly
            // the belt speed northward and kept the item on the line.
            assert_eq!(momentum.0.y, BELT_SPEED);
            assert_eq!(momentum.0.x, 0);
            assert_eq!(pos.x, 0);
            assert_eq!(pos.y, 2 * DT);
            break;
        }
    }
    // 19661 / (2 * 1049) rounds up to 10 pulling steps.
    assert_eq!(steps_off_center, 10);
    // Riding on: stays centered, advances two cells' worth per second.
    let before = pos.y;
    let cell = world_to_grid_pos(pos).tile;
    item_momentum_step(map.get_tile(cell), &mut pos, &mut momentum, DT);
    assert_eq!(pos.y - before, 2 * DT);
    assert_eq!(momentum.0.y, BELT_SPEED);
}

#[test]
fn east_belt_pulls_along_x() {
    let mut map = Tilemap::new(textures());
    assert!(map.try_add(CellPos { x: 0, y: 0 }, MachineType::Belt, Side::East, 1).is_some());
    let mut pos = FixVec { x: 0, y: 0 };
    let mut momentum = Momentum::default();
    // Already centered on the lane: accelerates eastward at once.
    item_momentum_step(map.get_tile(CellPos { x: 0, y: 0 }), &mut pos, &mut momentum, DT);
    assert_eq!(momentum.0.x, BELT_SPEED);
    assert_eq!(momentum.0.y, 0);
    assert_eq!(pos.x, 2 * DT);
    assert_eq!(pos.y, 0);
}

#[test]
fn south_belt_runs_negative_y() {
    let mut map = Tilemap::new(textures());
    assert!(map.try_add(CellPos { x: 0, y: 0 }, MachineType::Belt, Side::South, 1).is_some());
    let mut pos = FixVec { x: 0, y: 0 };
    let mut momentum = Momentum::default();
    item_momentum_step(map.get_tile(CellPos { x: 0, y: 0 }), &mut pos, &mut momentum, DT);
    assert_eq!(momentum.0.y, -BELT_SPEED);
    assert_eq!(pos.y, -2 * DT);
}

#[test]
fn pos_fract_wraps_negatives_into_the_cell() {
    assert_eq!(pos_fract(0), 0);
    assert_eq!(pos_fract(SCALE + 5), 5);
    assert_eq!(pos_fract(-1), SCALE - 1);
    assert_eq!(pos_fract(-SCALE - 7), SCALE - 7);
}

#[test]
fn item_textures_resolve_per_kind() {
    let t = textures();
    assert_eq!(item_texture(&t, Item::A), 4);
    assert_eq!(item_texture(&t, Item::B), 5);
    assert_eq!(item_texture(&t, Item::C), 6);
    assert_eq!(item_texture(&t, Item::D), 7);
}

#[test]
fn tool_geometry_follows_the_machine() {
    assert_eq!(Tool::default(), Tool::Delete);
    assert_eq!(Tool::Delete.size().x, 1);
    assert_eq!(Tool::Place(MachineType::Combiner2x1).size().x, 2);
    assert_eq!(Tool::Delete.cursor_offset().x, 0);
    assert_eq!(Tool::Place(MachineType::Combiner2x1).cursor_offset().x, -HALF_CELL);
    let t = textures();
    assert_eq!(Tool::Delete.icon(&t), 0);
    assert_eq!(Tool::Place(MachineType::Belt).icon(&t), 1);
    assert_eq!(Tool::Place(MachineType::Ice).icon(&t), 2);
    assert_eq!(Tool::Place(MachineType::Combiner2x1).icon(&t), 3);
}

#[test]
fn rotate_inputs_turn_the_placement_facing() {
    let mut dir = ToolDirection::default();
    assert_eq!(dir.0, Side::North);
    change_placing_direction(&mut dir, false, true);
    assert_eq!(dir.0, Side::East);
    change_placing_direction(&mut dir, true, false);
    assert_eq!(dir.0, Side::North);
    // Both edges in one frame cancel out.
    change_placing_direction(&mut dir, true, true);
    assert_eq!(dir.0, Side::North);
    change_placing_direction(&mut dir, false, false);
    assert_eq!(dir.0, Side::North);
}

#[test]
fn press_without_position_is_not_a_click() {
    let idle = MouseInput::new(None, true);
    assert!(!idle.is_clicked());
    assert_eq!(idle.clicked_pos(), None);
    let hover = MouseInput::new(Some(world_to_grid_pos(FixVec { x: 0, y: 0 })), false);
    assert!(hover.pos().is_some());
    assert_eq!(hover.clicked_pos(), None);
    let click = MouseInput::new(Some(world_to_grid_pos(FixVec { x: 0, y: 0 })), true);
    assert!(click.clicked_pos().is_some());
    assert_eq!(MouseInput::default().clicked_pos(), None);
}

#[test]
fn use_tool_places_removes_and_idles() {
    let mut map = Tilemap::new(textures());
    let at_origin = MouseInput::new(Some(world_to_grid_pos(FixVec { x: 0, y: 0 })), true);
    let unpressed = MouseInput::new(Some(world_to_grid_pos(FixVec { x: 0, y: 0 })), false);

    // No click: nothing happens.
    let outcome = use_tool(&mut map, Tool::Place(MachineType::Belt), ToolDirection(Side::East), &unpressed, 30);
    assert_eq!(outcome, ToolOutcome::Idle);
    assert!(map.get_tile(CellPos { x: 0, y: 0 }).is_none());

    // Click with a place tool: the belt appears with the current facing.
    let outcome = use_tool(&mut map, Tool::Place(MachineType::Belt), ToolDirection(Side::East), &at_origin, 30);
    match outcome {
        ToolOutcome::Placed(req) => {
            assert_eq!(req.visual, 30);
            assert_eq!(req.atlas_index, 1);
        }
        other => panic!("expected a placement, got {:?}", other),
    }
    assert!(matches!(map.get_tile(CellPos { x: 0, y: 0 }), Some(Tile::Belt(Side::East, 30))));

    // A second placement on the same cell is blocked and changes nothing.
    let outcome = use_tool(&mut map, Tool::Place(MachineType::Ice), ToolDirection(Side::North), &at_origin, 31);
    assert_eq!(outcome, ToolOutcome::PlacementBlocked);
    assert!(matches!(map.get_tile(CellPos { x: 0, y: 0 }), Some(Tile::Belt(Side::East, 30))));

    // The delete tool removes it and names the visual to despawn.
    let outcome = use_tool(&mut map, Tool::Delete, ToolDirection(Side::North), &at_origin, 0);
    assert_eq!(outcome, ToolOutcome::Removed(30));
    assert!(map.get_tile(CellPos { x: 0, y: 0 }).is_none());

    // Deleting an empty cell reports that nothing was removed.
    let outcome = use_tool(&mut map, Tool::Delete, ToolDirection(Side::North), &at_origin, 0);
    assert_eq!(outcome, ToolOutcome::RemovedNothing);
}
