//! The render pipeline description: shader entry points, vertex layout,
//! primitive assembly and colour output.

use vstd::prelude::*;
use crate::vertex::{Vertex, VertexLayout, VertexStepMode, VERTEX_SIZE, layout_attributes};

verus! {

/// How vertices are assembled into primitives.
#[derive(Clone, Copy, Debug, PartialEq, Eq, Structural)]
pub enum PrimitiveTopology {
    PointList,
    LineList,
    LineStrip,
    TriangleList,
    TriangleStrip,
}

/// Index width that restarts a strip.
#[derive(Clone, Copy, Debug, PartialEq, Eq, Structural)]
pub enum IndexFormat {
    Uint16,
    Uint32,
}

/// How the fragment output is combined with the target.
#[derive(Clone, Copy, Debug, PartialEq, Eq, Structural)]
pub enum BlendMode {
    /// The output replaces the target's colour and alpha.
    Replace,
}

/// What the pipeline is built from: the shader source text and primitive assembly.
#[derive(Clone, Debug)]
pub struct Inputs {
    pub source: String,
    pub topology: PrimitiveTopology,
    pub strip_index_format: Option<IndexFormat>,
}

pub open spec fn is_strip(t: PrimitiveTopology) -> bool {
    t == PrimitiveTopology::LineStrip || t == PrimitiveTopology::TriangleStrip
}

/// A strip index format is only meaningful for a strip topology.
pub open spec fn inputs_consistent(i: Inputs) -> bool {
    i.strip_index_format is Some ==> is_strip(i.topology)
}

impl Inputs {
    /// Inputs for a triangle list with no strip index format.
    pub fn triangle_list(source: String) -> (r: Inputs)
        ensures
            r.source@ == source@,
            r.topology == PrimitiveTopology::TriangleList,
            r.strip_index_format is None,
            inputs_consistent(r),
    {
        Inputs { source, topology: PrimitiveTopology::TriangleList, strip_index_format: None }
    }

    /// Whether the strip index format fits the topology.
    pub fn is_consistent(&self) -> (r: bool)
        ensures
            r == inputs_consistent(*self),
    {
        match self.strip_index_format {
            Some(_) => match self.topology {
                PrimitiveTopology::LineStrip | PrimitiveTopology::TriangleStrip => true,
                _ => false,
            },
            None => true,
        }
    }
}

/// Everything the graphics API needs to build the pipeline, except the
/// colour target's pixel format, which is the surface's.
#[derive(Clone, Debug)]
pub struct PipelineDesc {
    pub inputs: Inputs,
    pub vertex_entry: &'static str,
    pub fragment_entry: &'static str,
    pub layout: VertexLayout,
    pub blend: BlendMode,
    pub write_all_channels: bool,
    pub depth_stencil: bool,
    pub sample_count: u32,
}

/// The fixed parts of a pipeline description built from `i`.
pub open spec fn describes(d: PipelineDesc, i: Inputs) -> bool {
    &&& d.inputs == i
    &&& d.vertex_entry@ == "vs_main"@
    &&& d.fragment_entry@ == "fs_main"@
    &&& d.layout.array_stride == VERTEX_SIZE
    &&& d.layout.step_mode == VertexStepMode::Vertex
    &&& d.layout.attributes@ == layout_attributes()
    &&& d.blend == BlendMode::Replace
    &&& d.write_all_channels
    &&& !d.depth_stencil
    &&& d.sample_count == 1
}

/// The pipeline description for `inputs`: vertex and fragment stages from the
/// same module, one vertex buffer, replace blending to all channels, no
/// depth or stencil, one sample. `None` when the strip index format does not
/// fit the topology.
pub fn pipeline_desc(inputs: Inputs) -> (r: Option<PipelineDesc>)
    ensures
        r is Some <==> inputs_consistent(inputs),
        r matches Some(d) ==> describes(d, inputs),
{
    if !inputs.is_consistent() {
        return None;
    }
    let vertex_entry = "vs_main";
    let fragment_entry = "fs_main";
    Some(
        PipelineDesc {
            inputs,
            vertex_entry,
            fragment_entry,
            layout: Vertex::desc(),
            blend: BlendMode::Replace,
            write_all_channels: true,
            depth_stencil: false,
            sample_count: 1,
        },
    )
}

} // verus!
