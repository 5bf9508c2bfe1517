//! Presentation lifecycle and per-frame protocol for a window that shows one
//! coloured quad through a GPU pipeline.
//!
//! The library decides; the caller performs. Vertex data, the pipeline
//! description and the per-frame plan are computed here, and the state machine
//! in [`lifecycle`] turns window events into the actions that the caller runs
//! against the graphics API.

pub mod vertex;

pub use vertex::{Vertex, VertexAttribute, VertexFormat, VertexLayout, VertexStepMode};
pub mod pipeline;
pub mod frame;

pub use pipeline::{BlendMode, IndexFormat, Inputs, PipelineDesc, PrimitiveTopology, pipeline_desc};
pub use frame::{ClearColor, FramePlan, frame_plan};
pub mod lifecycle;

pub use lifecycle::{
    AcquireError, Action, Event, FrameOutcome, Lifecycle, Phase, PresentMode, SetupError,
    SurfaceConfig, pick_surface_formats,
};
