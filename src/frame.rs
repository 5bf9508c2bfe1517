//! The plan of one frame: one render pass that clears and draws the quad once.

use vstd::prelude::*;
use crate::vertex::VERTEX_COUNT;

verus! {

/// A colour with each channel in thousandths (1000 is full intensity).
#[derive(Clone, Copy, Debug, PartialEq, Eq, Structural)]
pub struct ClearColor {
    pub r: u32,
    pub g: u32,
    pub b: u32,
    pub a: u32,
}

/// The background: `(0.05, 0.062, 0.08, 1.0)`.
pub open spec fn background() -> ClearColor {
    ClearColor { r: 50, g: 62, b: 80, a: 1000 }
}

/// What one frame records: a single pass targeting the acquired image,
/// cleared to `clear`, its result stored when `store`, with one draw call of
/// `vertex_count` vertices from `first_vertex` and `instance_count` instances
/// from `first_instance`, the vertex buffer bound at `vertex_slot`.
#[derive(Clone, Copy, Debug, PartialEq, Eq, Structural)]
pub struct FramePlan {
    pub clear: ClearColor,
    pub store: bool,
    pub vertex_slot: u32,
    pub first_vertex: u32,
    pub vertex_count: u32,
    pub first_instance: u32,
    pub instance_count: u32,
}

/// The plan of every frame.
pub open spec fn quad_frame() -> FramePlan {
    FramePlan {
        clear: background(),
        store: true,
        vertex_slot: 0,
        first_vertex: 0,
        vertex_count: VERTEX_COUNT,
        first_instance: 0,
        instance_count: 1,
    }
}

/// The plan of a frame: clear to the background and draw the whole quad once.
pub fn frame_plan() -> (r: FramePlan)
    ensures
        r == quad_frame(),
{
    FramePlan {
        clear: ClearColor { r: 50, g: 62, b: 80, a: 1000 },
        store: true,
        vertex_slot: 0,
        first_vertex: 0,
        vertex_count: VERTEX_COUNT,
        first_instance: 0,
        instance_count: 1,
    }
}

} // verus!
