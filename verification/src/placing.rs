//! The placement/tool controller: the selected tool and facing, the
//! per-frame pointer snapshot, and the step that turns one qualifying
//! pointer action into one tilemap mutation.

use vstd::prelude::*;

use crate::coords::FixVec;
use crate::direction::Side;
use crate::tilemap::remove_result;
use crate::tilemap::removed_visual;
use crate::tilemap::spec_spawn_request;
use crate::tilemap::try_add_result;
use crate::tilemap::try_add_succeeds;
use crate::tilemap::GridSize;
use crate::tilemap::MachineType;
use crate::tilemap::SpawnRequest;
use crate::tilemap::TextureMap;
use crate::tilemap::Tilemap;
use crate::transformations::GridPos;

verus! {

/// The selected tool: delete, or place one kind of machine.
#[derive(Debug, Clone, Copy, PartialEq, Eq, Structural)]
pub enum Tool {
    Delete,
    Place(MachineType),
}

impl Default for Tool {
    fn default() -> (r: Tool)
        ensures
            r == Tool::Delete,
    {
        Tool::Delete
    }
}

impl Tool {
    /// The cells the tool's cursor covers.
    pub open spec fn spec_size(self) -> GridSize {
        match self {
            Tool::Place(m) => m.spec_size(),
            _ => GridSize { x: 1, y: 1 },
        }
    }

    /// The cells the tool's cursor covers.
    pub fn size(self) -> (r: GridSize)
        ensures
            r == self.spec_size(),
    {
        match self {
            Tool::Place(m) => m.size(),
            _ => GridSize { x: 1, y: 1 },
        }
    }

    /// Offset of the cursor sprite's center from the hovered cell.
    pub open spec fn spec_cursor_offset(self) -> FixVec {
        match self {
            Tool::Place(m) => m.spec_cursor_offset(),
            _ => FixVec { x: 0, y: 0 },
        }
    }

    /// Offset of the cursor sprite's center from the hovered cell.
    pub fn cursor_offset(self) -> (r: FixVec)
        ensures
            r == self.spec_cursor_offset(),
    {
        match self {
            Tool::Place(m) => m.cursor_offset(),
            _ => FixVec { x: 0, y: 0 },
        }
    }

    /// The tool's icon in the resolved texture table.
    pub fn icon(&self, textures: &TextureMap) -> (r: usize)
        ensures
            r == match *self {
                Tool::Delete => textures.delete_tool,
                Tool::Place(MachineType::Belt) => textures.belt,
                Tool::Place(MachineType::Ice) => textures.ice,
                Tool::Place(MachineType::Combiner2x1) => textures.combiner2x1,
            },
    {
        match self {
            Tool::Delete => textures.delete_tool,
            Tool::Place(MachineType::Belt) => textures.belt,
            Tool::Place(MachineType::Ice) => textures.ice,
            Tool::Place(MachineType::Combiner2x1) => textures.combiner2x1,
        }
    }
}

/// The facing the next placement will use.
#[derive(Debug, Clone, Copy, PartialEq, Eq, Structural)]
pub struct ToolDirection(pub Side);

impl Default for ToolDirection {
    fn default() -> (r: ToolDirection)
        ensures
            r == ToolDirection(Side::North),
    {
        ToolDirection(Side::North)
    }
}

/// Applies one frame's rotate inputs to the placement facing: a left edge
/// turns it a quarter left, then a right edge a quarter right.
pub fn change_placing_direction(
    direction: &mut ToolDirection,
    rotate_left_edge: bool,
    rotate_right_edge: bool,
)
    ensures
        final(direction).0 == ({
            let d1 = if rotate_left_edge {
                old(direction).0.spec_rotate_left()
            } else {
                old(direction).0
            };
            if rotate_right_edge {
                d1.spec_rotate_right()
            } else {
                d1
            }
        }),
{
    if rotate_left_edge {
        direction.0 = direction.0.rotate_left();
    }
    if rotate_right_edge {
        direction.0 = direction.0.rotate_right();
    }
}

/// One frame's pointer snapshot: the grid-resolved pointer position, if
/// the pointer is over the interactive area, and whether it is pressed.
/// Pressed is only ever recorded together with a position.
#[derive(Debug, Clone, Copy, PartialEq, Eq, Structural)]
pub struct MouseInput {
    pos: Option<GridPos>,
    is_clicked: bool,
}

impl Default for MouseInput {
    fn default() -> (r: MouseInput)
        ensures
            r.spec_pos() is None,
            !r.spec_is_clicked(),
            r.wf(),
    {
        MouseInput { pos: None, is_clicked: false }
    }
}

impl MouseInput {
    /// The pointer's grid position this frame, if any.
    pub closed spec fn spec_pos(self) -> Option<GridPos> {
        self.pos
    }

    /// Whether the pointer is pressed this frame.
    pub closed spec fn spec_is_clicked(self) -> bool {
        self.is_clicked
    }

    /// A usable snapshot: clicked only with a position, and the position
    /// well formed.
    pub open spec fn wf(self) -> bool {
        &&& self.spec_is_clicked() ==> self.spec_pos() is Some
        &&& self.spec_pos() matches Some(g) ==> g.wf()
    }

    /// Builds the frame's snapshot; a press without a position is
    /// recorded as no press.
    pub fn new(pos: Option<GridPos>, pressed: bool) -> (r: MouseInput)
        requires
            pos matches Some(g) ==> g.wf(),
        ensures
            r.spec_pos() == pos,
            r.spec_is_clicked() == (pressed && pos is Some),
            r.wf(),
    {
        MouseInput { pos, is_clicked: pressed && pos.is_some() }
    }

    /// The pointer's grid position, if it is over the interactive area.
    pub fn pos(&self) -> (r: Option<GridPos>)
        ensures
            r == self.spec_pos(),
    {
        self.pos
    }

    /// Whether the pointer is pressed this frame.
    pub fn is_clicked(&self) -> (r: bool)
        ensures
            r == self.spec_is_clicked(),
    {
        self.is_clicked
    }

    /// The position a qualifying pointer action targets.
    pub open spec fn spec_clicked_pos(self) -> Option<GridPos> {
        if self.spec_is_clicked() {
            self.spec_pos()
        } else {
            None
        }
    }

    /// Returns `Some` if the pointer is over the interactive area and
    /// pressed, otherwise `None`.
    pub fn clicked_pos(&self) -> (r: Option<GridPos>)
        ensures
            r == self.spec_clicked_pos(),
    {
        if self.is_clicked {
            self.pos
        } else {
            None
        }
    }
}

/// What one frame's tool use asked of the host.
#[derive(Debug, Clone, Copy, PartialEq, Eq, Structural)]
pub enum ToolOutcome {
    /// No qualifying pointer action this frame.
    Idle,
    /// A machine was placed; spawn its visual.
    Placed(SpawnRequest),
    /// A placement was attempted on an occupied footprint; nothing
    /// changed.
    PlacementBlocked,
    /// A machine was removed; despawn this visual.
    Removed(u64),
    /// A removal was attempted on an empty cell; nothing changed.
    RemovedNothing,
}

/// Applies the selected tool at the pointer's clicked position, if any:
/// the delete tool removes, a place tool attempts one placement with the
/// current facing, storing `visual` as the new machine's handle. One
/// idempotent attempt per input event; no retry.
pub fn use_tool(
    tilemap: &mut Tilemap,
    tool: Tool,
    direction: ToolDirection,
    mouse: &MouseInput,
    visual: u64,
) -> (r: ToolOutcome)
    requires
        old(tilemap).wf(),
        mouse.wf(),
    ensures
        final(tilemap).wf(),
        final(tilemap).spec_textures() == old(tilemap).spec_textures(),
        match mouse.spec_clicked_pos() {
            None => {
                &&& final(tilemap)@ == old(tilemap)@
                &&& r == ToolOutcome::Idle
            },
            Some(g) => match tool {
                Tool::Delete => {
                    &&& final(tilemap)@ == remove_result(old(tilemap)@, g.tile)
                    &&& r == match removed_visual(old(tilemap)@, g.tile) {
                        Some(v) => ToolOutcome::Removed(v),
                        None => ToolOutcome::RemovedNothing,
                    }
                },
                Tool::Place(machine) => {
                    &&& final(tilemap)@ == try_add_result(
                        old(tilemap)@,
                        g.tile,
                        machine,
                        direction.0,
                        visual,
                    )
                    &&& r == if try_add_succeeds(old(tilemap)@, g.tile, machine, direction.0) {
                        ToolOutcome::Placed(
                            spec_spawn_request(
                                old(tilemap).spec_textures(),
                                g.tile,
                                machine,
                                direction.0,
                                visual,
                            ),
                        )
                    } else {
                        ToolOutcome::PlacementBlocked
                    }
                },
            },
        },
{
    match mouse.clicked_pos() {
        None => ToolOutcome::Idle,
        Some(g) => match tool {
            Tool::Delete => match tilemap.remove(g.tile) {
                Some(v) => ToolOutcome::Removed(v),
                None => ToolOutcome::RemovedNothing,
            },
            Tool::Place(machine) => match tilemap.try_add(g.tile, machine, direction.0, visual) {
                Some(req) => ToolOutcome::Placed(req),
                None => ToolOutcome::PlacementBlocked,
            },
        },
    }
}

} // verus!
