//! The fixed state that every mesh is drawn with.
use crate::mesh::{COLOR_OFFSET, VERTEX_STRIDE};
use crate::pipeline::Antialiasing;
use crate::uniforms::UNIFORM_STRIDE;
use vstd::prelude::*;

verus! {

#[derive(Clone, Copy, Debug, PartialEq, Eq, Structural)]
pub enum BlendFactor {
    One,
    SrcAlpha,
    OneMinusSrcAlpha,
}

#[derive(Clone, Copy, Debug, PartialEq, Eq, Structural)]
pub enum BlendOperation {
    Add,
}

/// How a drawn value is combined with the one already in the target.
#[derive(Clone, Copy, Debug, PartialEq, Eq, Structural)]
pub struct Blend {
    pub src_factor: BlendFactor,
    pub dst_factor: BlendFactor,
    pub operation: BlendOperation,
}

#[derive(Clone, Copy, Debug, PartialEq, Eq, Structural)]
pub enum FrontFace {
    Clockwise,
    CounterClockwise,
}

#[derive(Clone, Copy, Debug, PartialEq, Eq, Structural)]
pub enum CullMode {
    Neither,
    Front,
    Back,
}

#[derive(Clone, Copy, Debug, PartialEq, Eq, Structural)]
pub enum Topology {
    TriangleList,
}

#[derive(Clone, Copy, Debug, PartialEq, Eq, Structural)]
pub enum IndexFormat {
    Uint32,
}

/// A vertex attribute of two or of four 32-bit floats.
#[derive(Clone, Copy, Debug, PartialEq, Eq, Structural)]
pub enum VertexFormat {
    Float2,
    Float4,
}

impl VertexFormat {
    pub open spec fn bytes(self) -> nat {
        match self {
            VertexFormat::Float2 => 8,
            VertexFormat::Float4 => 16,
        }
    }

    /// The bytes that an attribute of this format takes.
    pub fn size(self) -> (size: u64)
        ensures
            size == self.bytes(),
    {
        match self {
            VertexFormat::Float2 => 8,
            VertexFormat::Float4 => 16,
        }
    }
}

/// Where the vertex shader finds one attribute within a vertex.
#[derive(Clone, Copy, Debug, PartialEq, Eq, Structural)]
pub struct VertexAttribute {
    pub shader_location: u32,
    pub format: VertexFormat,
    pub offset: u64,
}

/// The state shared by all draws of all frames. The vertex and the fragment
/// shader both start at the entry point `main`; the uniform record is bound
/// for the vertex stage alone, at a dynamic offset.
#[derive(Clone, Copy, Debug, PartialEq, Eq, Structural)]
pub struct PipelineDescriptor {
    pub uniform_binding: u32,
    pub uniform_binding_size: u64,
    pub front_face: FrontFace,
    pub cull_mode: CullMode,
    pub topology: Topology,
    pub color_blend: Blend,
    pub alpha_blend: Blend,
    pub index_format: IndexFormat,
    pub vertex_stride: u64,
    pub position: VertexAttribute,
    pub color: VertexAttribute,
    pub sample_count: u32,
    pub sample_mask: u32,
    pub alpha_to_coverage: bool,
}

/// The samples per pixel: one without antialiasing.
pub open spec fn samples_of(antialiasing: Option<Antialiasing>) -> u32 {
    match antialiasing {
        Some(antialiasing) => antialiasing.samples(),
        None => 1u32,
    }
}

/// The state to draw with: straight alpha blending, no culling, and vertices
/// of a position followed by a color.
pub open spec fn descriptor_of(antialiasing: Option<Antialiasing>) -> PipelineDescriptor {
    PipelineDescriptor {
        uniform_binding: 0,
        uniform_binding_size: UNIFORM_STRIDE as u64,
        front_face: FrontFace::Clockwise,
        cull_mode: CullMode::Neither,
        topology: Topology::TriangleList,
        color_blend: Blend {
            src_factor: BlendFactor::SrcAlpha,
            dst_factor: BlendFactor::OneMinusSrcAlpha,
            operation: BlendOperation::Add,
        },
        alpha_blend: Blend {
            src_factor: BlendFactor::One,
            dst_factor: BlendFactor::OneMinusSrcAlpha,
            operation: BlendOperation::Add,
        },
        index_format: IndexFormat::Uint32,
        vertex_stride: VERTEX_STRIDE as u64,
        position: VertexAttribute { shader_location: 0, format: VertexFormat::Float2, offset: 0 },
        color: VertexAttribute {
            shader_location: 1,
            format: VertexFormat::Float4,
            offset: COLOR_OFFSET as u64,
        },
        sample_count: samples_of(antialiasing),
        sample_mask: 0xffff_ffff,
        alpha_to_coverage: false,
    }
}

/// The two attributes fill a vertex from its first byte to its last, the one
/// behind the other.
pub proof fn lemma_attributes_tile_vertex(antialiasing: Option<Antialiasing>)
    ensures
        descriptor_of(antialiasing).position.offset == 0,
        descriptor_of(antialiasing).position.offset + descriptor_of(
            antialiasing,
        ).position.format.bytes() == descriptor_of(antialiasing).color.offset,
        descriptor_of(antialiasing).color.offset + descriptor_of(antialiasing).color.format.bytes()
            == descriptor_of(antialiasing).vertex_stride,
        descriptor_of(antialiasing).sample_count >= 1,
        descriptor_of(antialiasing).sample_count > 1 <==> antialiasing.is_some(),
{
}

} // verus!
