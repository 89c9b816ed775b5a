//! Level data: every placed entity, addressed by a 128-bit UUID.
//!
//! Each kind of entity lives in its own map from UUID to the entity's
//! persisted record. The abstract view of a level is one `Map` per kind.

use vstd::prelude::*;
use std::collections::HashMap;
use crate::geom::{Pos, RectData};

verus! {

/// A wall: an axis-aligned rectangle.
#[derive(Clone, Copy, Debug, PartialEq, Eq, Structural)]
pub struct WallData {
    pub rect: RectData,
}

/// A checkpoint the player can respawn at.
#[derive(Clone, Copy, Debug, PartialEq, Eq, Structural)]
pub struct CheckpointData {
    pub pos: Pos,
}

/// The goal that ends the level.
#[derive(Clone, Copy, Debug, PartialEq, Eq, Structural)]
pub struct GoalData {
    pub pos: Pos,
}

/// A tutorial sign for the arrow keys.
#[derive(Clone, Copy, Debug, PartialEq, Eq, Structural)]
pub struct ArrowTutorialData {
    pub pos: Pos,
}

/// A tutorial sign for the space bar.
#[derive(Clone, Copy, Debug, PartialEq, Eq, Structural)]
pub struct SpaceTutorialData {
    pub pos: Pos,
}

/// A directional arrow hint, with its angle in fixed-point units.
#[derive(Clone, Copy, Debug, PartialEq, Eq, Structural)]
pub struct ArrowData {
    pub pos: Pos,
    pub angle: i64,
}

/// The entities of a level, each kind keyed by UUID.
pub struct LevelData {
    pub walls: HashMap<u128, WallData>,
    pub checkpoints: HashMap<u128, CheckpointData>,
    pub goals: HashMap<u128, GoalData>,
    pub arrow_tutorials: HashMap<u128, ArrowTutorialData>,
    pub space_tutorials: HashMap<u128, SpaceTutorialData>,
    pub arrows: HashMap<u128, ArrowData>,
}

/// The abstract contents of a level: one map per entity kind.
pub struct LevelView {
    pub walls: Map<u128, WallData>,
    pub checkpoints: Map<u128, CheckpointData>,
    pub goals: Map<u128, GoalData>,
    pub arrow_tutorials: Map<u128, ArrowTutorialData>,
    pub space_tutorials: Map<u128, SpaceTutorialData>,
    pub arrows: Map<u128, ArrowData>,
}

impl View for LevelData {
    type V = LevelView;

    open spec fn view(&self) -> LevelView {
        LevelView {
            walls: self.walls@,
            checkpoints: self.checkpoints@,
            goals: self.goals@,
            arrow_tutorials: self.arrow_tutorials@,
            space_tutorials: self.space_tutorials@,
            arrows: self.arrows@,
        }
    }
}

/// A level with no entities at all.
pub open spec fn empty_level() -> LevelView {
    LevelView {
        walls: Map::empty(),
        checkpoints: Map::empty(),
        goals: Map::empty(),
        arrow_tutorials: Map::empty(),
        space_tutorials: Map::empty(),
        arrows: Map::empty(),
    }
}

impl LevelData {
    /// A fresh level holding nothing.
    pub fn new() -> (r: LevelData)
        ensures
            r@ == empty_level(),
    {
        LevelData {
            walls: HashMap::new(),
            checkpoints: HashMap::new(),
            goals: HashMap::new(),
            arrow_tutorials: HashMap::new(),
            space_tutorials: HashMap::new(),
            arrows: HashMap::new(),
        }
    }
}

} // verus!
