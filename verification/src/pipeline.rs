//! Static description of the sky GPU pipeline, built once at setup and
//! registered under a fixed identifier: vertex layout, camera bind group,
//! push-constant range, rasterization, topology and blending.
//!
//! The host layer translates this record one-to-one into its own pipeline
//! descriptor type; every field is pinned by `sky_pipeline_config`'s
//! contract, so the translation carries no policy of its own.

use vstd::prelude::*;
use crate::pack::PACKED_BYTE_LEN;

verus! {

#[derive(Clone, Copy, Debug, PartialEq, Eq, Structural)]
pub enum BlendFactor {
    One,
    SrcAlpha,
    OneMinusSrcAlpha,
}

#[derive(Clone, Copy, Debug, PartialEq, Eq, Structural)]
pub enum BlendOperation {
    Add,
}

/// One blend rule: `src_factor * src op dst_factor * dst`.
#[derive(Clone, Copy, Debug, PartialEq, Eq, Structural)]
pub struct BlendRule {
    pub src_factor: BlendFactor,
    pub dst_factor: BlendFactor,
    pub operation: BlendOperation,
}

#[derive(Clone, Copy, Debug, PartialEq, Eq, Structural)]
pub enum FrontFace {
    Clockwise,
    CounterClockwise,
}

#[derive(Clone, Copy, Debug, PartialEq, Eq, Structural)]
pub enum CullMode {
    NoCulling,
    Front,
    Back,
}

#[derive(Clone, Copy, Debug, PartialEq, Eq, Structural)]
pub enum PolygonMode {
    Fill,
    Line,
    Point,
}

#[derive(Clone, Copy, Debug, PartialEq, Eq, Structural)]
pub enum Topology {
    TriangleList,
    TriangleStrip,
}

#[derive(Clone, Copy, Debug, PartialEq, Eq, Structural)]
pub enum IndexWidth {
    Uint16,
    Uint32,
}

/// Which shader stages see a binding or a push-constant range.
#[derive(Clone, Copy, Debug, PartialEq, Eq, Structural)]
pub enum StageSet {
    Vertex,
    Fragment,
    VertexAndFragment,
}

/// The sky pipeline, field for field.
pub struct PipelineConfig {
    pub name: String,
    /// Bind group 0, binding 0: one uniform named below, holding the
    /// camera's view and projection matrices.
    pub camera_binding_name: String,
    pub camera_binding_index: u32,
    pub camera_binding_stages: StageSet,
    /// Two 4-by-4 single-precision matrices.
    pub camera_matrix_count: u32,
    /// The single vertex stream and its one position attribute.
    pub vertex_buffer_name: String,
    pub vertex_stride: u64,
    pub vertex_attribute_name: String,
    pub vertex_attribute_offset: u64,
    pub vertex_attribute_shader_location: u32,
    /// Components of the position attribute (three floats).
    pub vertex_attribute_components: u32,
    /// Push constants for the fragment stage, covering the packed block.
    pub push_constant_stages: StageSet,
    pub push_constant_range_start: u32,
    pub push_constant_range_end: u32,
    pub polygon_mode: PolygonMode,
    pub front_face: FrontFace,
    pub cull_mode: CullMode,
    pub depth_bias: i32,
    pub topology: Topology,
    pub color_blend: BlendRule,
    pub alpha_blend: BlendRule,
    /// The sky draws as a backdrop; ordering comes from the graph, not a
    /// depth buffer.
    pub has_depth_stencil: bool,
    pub index_width: IndexWidth,
    pub sample_count: u32,
}

/// Builds the sky pipeline description. Setup-time only; the record is
/// immutable afterwards.
pub fn sky_pipeline_config() -> (r: PipelineConfig)
    ensures
        r.name@ == "SkyPipeline"@,
        r.camera_binding_name@ == "Camera"@,
        r.camera_binding_index == 0,
        r.camera_binding_stages == StageSet::VertexAndFragment,
        r.camera_matrix_count == 2,
        r.vertex_buffer_name@ == "SkyboxCube"@,
        r.vertex_stride == 12,
        r.vertex_attribute_name@ == "Vertex_Position"@,
        r.vertex_attribute_offset == 0,
        r.vertex_attribute_shader_location == 0,
        r.vertex_attribute_components == 3,
        r.push_constant_stages == StageSet::Fragment,
        r.push_constant_range_start == 0,
        r.push_constant_range_end == PACKED_BYTE_LEN,
        r.polygon_mode == PolygonMode::Fill,
        r.front_face == FrontFace::Clockwise,
        r.cull_mode == CullMode::NoCulling,
        r.depth_bias == 0,
        r.topology == Topology::TriangleStrip,
        r.color_blend == (BlendRule {
            src_factor: BlendFactor::SrcAlpha,
            dst_factor: BlendFactor::OneMinusSrcAlpha,
            operation: BlendOperation::Add,
        }),
        r.alpha_blend == (BlendRule {
            src_factor: BlendFactor::One,
            dst_factor: BlendFactor::One,
            operation: BlendOperation::Add,
        }),
        !r.has_depth_stencil,
        r.index_width == IndexWidth::Uint16,
        r.sample_count == 1,
{
    PipelineConfig {
        name: String::from_str("SkyPipeline"),
        camera_binding_name: String::from_str("Camera"),
        camera_binding_index: 0,
        camera_binding_stages: StageSet::VertexAndFragment,
        camera_matrix_count: 2,
        vertex_buffer_name: String::from_str("SkyboxCube"),
        vertex_stride: 12,
        vertex_attribute_name: String::from_str("Vertex_Position"),
        vertex_attribute_offset: 0,
        vertex_attribute_shader_location: 0,
        vertex_attribute_components: 3,
        push_constant_stages: StageSet::Fragment,
        push_constant_range_start: 0,
        push_constant_range_end: 128,
        polygon_mode: PolygonMode::Fill,
        front_face: FrontFace::Clockwise,
        cull_mode: CullMode::NoCulling,
        depth_bias: 0,
        topology: Topology::TriangleStrip,
        color_blend: BlendRule {
            src_factor: BlendFactor::SrcAlpha,
            dst_factor: BlendFactor::OneMinusSrcAlpha,
            operation: BlendOperation::Add,
        },
        alpha_blend: BlendRule {
            src_factor: BlendFactor::One,
            dst_factor: BlendFactor::One,
            operation: BlendOperation::Add,
        },
        has_depth_stencil: false,
        index_width: IndexWidth::Uint16,
        sample_count: 1,
    }
}

} // verus!
