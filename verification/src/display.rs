//! The engine's view of one display-list entity.
//!
//! The scene graph itself — placement, rendering, child lists — lives
//! outside the engine. What the object model reads of a display entity is
//! held here as plain values: its depth, its dot-separated path, its parent
//! link, whether it has been removed, and the script object bound to it.

use vstd::prelude::*;

verus! {

/// Depths used by scripts are offset by this amount from depths used
/// inside the container format: timeline objects start at depth zero in
/// the file but read as negative from scripts.
pub const AVM_DEPTH_BIAS: i32 = 16384;

/// The maximum depth at which scripts may attach or swap clips.
pub const AVM_MAX_DEPTH: i32 = 2_130_706_428;

/// The maximum depth from which scripts may remove clips.
pub const AVM_MAX_REMOVE_DEPTH: i32 = 2_130_706_416;

/// What the engine reads of one display entity.
#[derive(Debug)]
pub struct DisplayNode {
    /// The entity's depth, in the container format's convention.
    pub depth: i32,
    /// The entity's dot-separated path from the root.
    pub path: String,
    /// The parent entity, allocated earlier.
    pub parent: Option<usize>,
    /// Whether the entity has been removed from the scene.
    pub removed: bool,
    /// The script object bound to this entity, if one has been created.
    pub object: Option<usize>,
    /// Whether the entity is a movie clip, and so can hold children.
    pub is_movie_clip: bool,
}

} // verus!
