//! Core logic of a 2D level editor: grid snapping for entity placement,
//! UUID-addressed level data, and the add-tool's menu-driven spawn decisions.

pub mod geom;
pub mod level;
pub mod editor;
