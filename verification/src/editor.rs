//! The add tool of the level editor.
//!
//! Entering the add tool shows a menu with one button per spawnable entity.
//! Pressing a button places that entity at the camera's position — snapped to
//! the placement grid for everything but the player — records it in the level
//! data under a fresh UUID, emits the spawn commands for the engine to run,
//! and hands the editor back to the pointer tool.

use vstd::prelude::*;
use crate::geom::{grid_ok, pos_ok, snap_to_grid, snapped_pos, Pos, RectData};
use crate::level::{
    ArrowData, ArrowTutorialData, CheckpointData, GoalData, LevelData, LevelView,
    SpaceTutorialData, WallData,
};

verus! {

broadcast use vstd::std_specs::hash::group_hash_axioms;

/// The editor's tools. The add tool places entities; the pointer tool is the
/// one the editor falls back to once a placement is done.
#[derive(Clone, Copy, Debug, PartialEq, Eq, Structural)]
pub enum Tool {
    Pointer,
    Add,
}

/// One button of the add tool's menu.
#[derive(Clone, Copy, Debug, PartialEq, Eq, Structural)]
pub enum MenuAction {
    Player,
    Wall,
    Checkpoint,
    Goal,
    ArrowTutorial,
    SpaceTutorial,
    Arrow,
}

/// An instruction to the engine: spawn or despawn a live entity.
#[derive(Clone, Copy, Debug, PartialEq, Eq, Structural)]
pub enum SpawnCommand {
    DespawnPlayer,
    SpawnPlayer(Pos),
    SpawnWall(u128, WallData),
    SpawnCheckpoint(u128, CheckpointData),
    SpawnGoal(u128, Pos),
    SpawnArrowTutorial(u128, Pos),
    SpawnSpaceTutorial(u128, Pos),
    SpawnArrow { uuid: u128, pos: Pos, angle: i64 },
}

/// Side of the square a freshly placed wall gets, in world units.
pub const WALL_SIZE: i64 = 5;

/// The wall record placed at `center`: a square of side `WALL_SIZE`.
pub open spec fn wall_at(center: Pos) -> WallData {
    WallData { rect: RectData { center, size: Pos { x: WALL_SIZE, y: WALL_SIZE } } }
}

/// `v` with its wall map replaced, everything else unchanged.
pub open spec fn with_walls(v: LevelView, walls: Map<u128, WallData>) -> LevelView {
    LevelView {
        walls,
        checkpoints: v.checkpoints,
        goals: v.goals,
        arrow_tutorials: v.arrow_tutorials,
        space_tutorials: v.space_tutorials,
        arrows: v.arrows,
    }
}

/// `v` with its checkpoint map replaced, everything else unchanged.
pub open spec fn with_checkpoints(v: LevelView, checkpoints: Map<u128, CheckpointData>) -> LevelView {
    LevelView {
        walls: v.walls,
        checkpoints,
        goals: v.goals,
        arrow_tutorials: v.arrow_tutorials,
        space_tutorials: v.space_tutorials,
        arrows: v.arrows,
    }
}

/// `v` with its goal map replaced, everything else unchanged.
pub open spec fn with_goals(v: LevelView, goals: Map<u128, GoalData>) -> LevelView {
    LevelView {
        walls: v.walls,
        checkpoints: v.checkpoints,
        goals,
        arrow_tutorials: v.arrow_tutorials,
        space_tutorials: v.space_tutorials,
        arrows: v.arrows,
    }
}

/// `v` with its arrow-tutorial map replaced, everything else unchanged.
pub open spec fn with_arrow_tutorials(
    v: LevelView,
    arrow_tutorials: Map<u128, ArrowTutorialData>,
) -> LevelView {
    LevelView {
        walls: v.walls,
        checkpoints: v.checkpoints,
        goals: v.goals,
        arrow_tutorials,
        space_tutorials: v.space_tutorials,
        arrows: v.arrows,
    }
}

/// `v` with its space-tutorial map replaced, everything else unchanged.
pub open spec fn with_space_tutorials(
    v: LevelView,
    space_tutorials: Map<u128, SpaceTutorialData>,
) -> LevelView {
    LevelView {
        walls: v.walls,
        checkpoints: v.checkpoints,
        goals: v.goals,
        arrow_tutorials: v.arrow_tutorials,
        space_tutorials,
        arrows: v.arrows,
    }
}

/// `v` with its arrow map replaced, everything else unchanged.
pub open spec fn with_arrows(v: LevelView, arrows: Map<u128, ArrowData>) -> LevelView {
    LevelView {
        walls: v.walls,
        checkpoints: v.checkpoints,
        goals: v.goals,
        arrow_tutorials: v.arrow_tutorials,
        space_tutorials: v.space_tutorials,
        arrows,
    }
}

/// What one press of a menu button does: how the level data after the press
/// (`post`) relates to the one before (`pre`), and which spawn commands go to
/// the engine. Every entity but the player is placed at the camera's position
/// snapped to the grid and recorded under `uuid`; the player is respawned at
/// the raw camera position and never touches the level data.
pub open spec fn menu_action_applied(
    pre: LevelView,
    post: LevelView,
    action: MenuAction,
    camera_pos: Pos,
    grid_size: i64,
    uuid: u128,
    cmds: Seq<SpawnCommand>,
) -> bool {
    let p = snapped_pos(camera_pos, grid_size);
    match action {
        MenuAction::Wall => {
            &&& post == with_walls(pre, pre.walls.insert(uuid, wall_at(p)))
            &&& cmds == seq![SpawnCommand::SpawnWall(uuid, wall_at(p))]
        },
        MenuAction::Checkpoint => {
            &&& post == with_checkpoints(
                pre,
                pre.checkpoints.insert(uuid, CheckpointData { pos: p }),
            )
            &&& cmds == seq![SpawnCommand::SpawnCheckpoint(uuid, CheckpointData { pos: p })]
        },
        MenuAction::Goal => {
            &&& post == with_goals(pre, pre.goals.insert(uuid, GoalData { pos: p }))
            &&& cmds == seq![SpawnCommand::SpawnGoal(uuid, p)]
        },
        MenuAction::ArrowTutorial => {
            &&& post == with_arrow_tutorials(
                pre,
                pre.arrow_tutorials.insert(uuid, ArrowTutorialData { pos: p }),
            )
            &&& cmds == seq![SpawnCommand::SpawnArrowTutorial(uuid, p)]
        },
        MenuAction::SpaceTutorial => {
            &&& post == with_space_tutorials(
                pre,
                pre.space_tutorials.insert(uuid, SpaceTutorialData { pos: p }),
            )
            &&& cmds == seq![SpawnCommand::SpawnSpaceTutorial(uuid, p)]
        },
        MenuAction::Arrow => {
            &&& post == with_arrows(pre, pre.arrows.insert(uuid, ArrowData { pos: p, angle: 0 }))
            &&& cmds == seq![SpawnCommand::SpawnArrow { uuid, pos: p, angle: 0 }]
        },
        MenuAction::Player => {
            &&& post == pre
            &&& cmds == seq![SpawnCommand::DespawnPlayer, SpawnCommand::SpawnPlayer(camera_pos)]
        },
    }
}

/// Apply one menu action to the level data, with the UUID the new entity is to
/// be recorded under. Returns the spawn commands for the engine and the tool
/// the editor falls back to.
pub fn apply_menu_action(
    level: &mut LevelData,
    action: MenuAction,
    camera_pos: Pos,
    grid_size: i64,
    uuid: u128,
) -> (r: (Vec<SpawnCommand>, Tool))
    requires
        grid_ok(grid_size),
        pos_ok(camera_pos),
    ensures
        menu_action_applied(
            old(level)@,
            final(level)@,
            action,
            camera_pos,
            grid_size,
            uuid,
            r.0@,
        ),
        r.1 == Tool::Pointer,
{
    let mut cmds: Vec<SpawnCommand> = Vec::new();
    match action {
        MenuAction::Wall => {
            let center = snap_to_grid(camera_pos, grid_size);
            let data = WallData {
                rect: RectData { center, size: Pos { x: WALL_SIZE, y: WALL_SIZE } },
            };
            level.walls.insert(uuid, data);
            cmds.push(SpawnCommand::SpawnWall(uuid, data));
            proof {
                assert(cmds@ =~= seq![SpawnCommand::SpawnWall(uuid, wall_at(snapped_pos(camera_pos, grid_size)))]);
            }
        },
        MenuAction::Checkpoint => {
            let point = snap_to_grid(camera_pos, grid_size);
            let data = CheckpointData { pos: point };
            level.checkpoints.insert(uuid, data);
            cmds.push(SpawnCommand::SpawnCheckpoint(uuid, data));
            proof {
                assert(cmds@ =~= seq![SpawnCommand::SpawnCheckpoint(uuid, data)]);
            }
        },
        MenuAction::Goal => {
            let point = snap_to_grid(camera_pos, grid_size);
            let data = GoalData { pos: point };
            level.goals.insert(uuid, data);
            cmds.push(SpawnCommand::SpawnGoal(uuid, point));
            proof {
                assert(cmds@ =~= seq![SpawnCommand::SpawnGoal(uuid, point)]);
            }
        },
        MenuAction::ArrowTutorial => {
            let point = snap_to_grid(camera_pos, grid_size);
            let data = ArrowTutorialData { pos: point };
            level.arrow_tutorials.insert(uuid, data);
            cmds.push(SpawnCommand::SpawnArrowTutorial(uuid, point));
            proof {
                assert(cmds@ =~= seq![SpawnCommand::SpawnArrowTutorial(uuid, point)]);
            }
        },
        MenuAction::SpaceTutorial => {
            let point = snap_to_grid(camera_pos, grid_size);
            let data = SpaceTutorialData { pos: point };
            level.space_tutorials.insert(uuid, data);
            cmds.push(SpawnCommand::SpawnSpaceTutorial(uuid, point));
            proof {
                assert(cmds@ =~= seq![SpawnCommand::SpawnSpaceTutorial(uuid, point)]);
            }
        },
        MenuAction::Arrow => {
            let point = snap_to_grid(camera_pos, grid_size);
            let data = ArrowData { pos: point, angle: 0 };
            level.arrows.insert(uuid, data);
            cmds.push(SpawnCommand::SpawnArrow { uuid, pos: point, angle: 0 });
            proof {
                assert(cmds@ =~= seq![SpawnCommand::SpawnArrow { uuid, pos: point, angle: 0 }]);
            }
        },
        MenuAction::Player => {
            cmds.push(SpawnCommand::DespawnPlayer);
            cmds.push(SpawnCommand::SpawnPlayer(camera_pos));
            proof {
                assert(cmds@ =~= seq![
                    SpawnCommand::DespawnPlayer,
                    SpawnCommand::SpawnPlayer(camera_pos),
                ]);
            }
        },
    }
    (cmds, Tool::Pointer)
}

/// Relies on uuid::Uuid::new_v4 for a freshly generated random UUID, handed
/// out as its 128-bit value. Nothing is promised of the value: it is random.
#[verifier::external_body]
fn fresh_uuid() -> u128 {
    uuid::Uuid::new_v4().as_u128()
}

/// Handle a pressed button of the add tool's menu: draw a fresh UUID, place
/// the chosen entity, and fall back to the pointer tool. Returns the UUID the
/// entity was recorded under, the spawn commands, and the next tool.
pub fn handle_menu_action(
    level: &mut LevelData,
    action: MenuAction,
    camera_pos: Pos,
    grid_size: i64,
) -> (r: (u128, Vec<SpawnCommand>, Tool))
    requires
        grid_ok(grid_size),
        pos_ok(camera_pos),
    ensures
        menu_action_applied(
            old(level)@,
            final(level)@,
            action,
            camera_pos,
            grid_size,
            r.0,
            r.1@,
        ),
        r.2 == Tool::Pointer,
{
    let uuid: u128 = fresh_uuid();
    let (cmds, next) = apply_menu_action(level, action, camera_pos, grid_size, uuid);
    (uuid, cmds, next)
}

/// The add tool's menu, in display order: one button per spawnable entity.
pub fn menu_entries() -> (r: Vec<(MenuAction, &'static str)>)
    ensures
        r@.len() == 7,
        r@[0].0 == MenuAction::Wall && r@[0].1@ == "Wall"@,
        r@[1].0 == MenuAction::Checkpoint && r@[1].1@ == "Checkpoint"@,
        r@[2].0 == MenuAction::Goal && r@[2].1@ == "Goal"@,
        r@[3].0 == MenuAction::ArrowTutorial && r@[3].1@ == "Arrow tutorial"@,
        r@[4].0 == MenuAction::SpaceTutorial && r@[4].1@ == "Space tutorial"@,
        r@[5].0 == MenuAction::Arrow && r@[5].1@ == "Arrow"@,
        r@[6].0 == MenuAction::Player && r@[6].1@ == "Player"@,
{
    let mut v: Vec<(MenuAction, &'static str)> = Vec::new();
    v.push((MenuAction::Wall, "Wall"));
    v.push((MenuAction::Checkpoint, "Checkpoint"));
    v.push((MenuAction::Goal, "Goal"));
    v.push((MenuAction::ArrowTutorial, "Arrow tutorial"));
    v.push((MenuAction::SpaceTutorial, "Space tutorial"));
    v.push((MenuAction::Arrow, "Arrow"));
    v.push((MenuAction::Player, "Player"));
    v
}

} // verus!
