//! The fixed state shared by every pipeline, which pipeline draws which kind
//! of batch, and the commands that bind a pipeline before a draw.

use vstd::prelude::*;
use crate::scene::PrimitiveKind;

verus! {

/// Each instance is a quad drawn as two triangles.
pub const VERTICES_PER_INSTANCE: u32 = 6;

/// Push constants: viewport width and height, two 32-bit integers.
pub const PUSH_CONSTANT_SIZE: u32 = 8;

/// The pipelines built at start-up, one per drawable kind of batch.
#[derive(Clone, Copy, Debug, PartialEq, Eq, Structural)]
pub enum PipelineKind {
    Quads,
    Shadows,
    Underlines,
}

/// Which pipeline draws a batch of the given kind; `None` for kinds that have
/// no pipeline, whose batches are skipped.
pub open spec fn pipeline_for_spec(kind: PrimitiveKind) -> Option<PipelineKind> {
    match kind {
        PrimitiveKind::Quads => Some(PipelineKind::Quads),
        PrimitiveKind::Shadows => Some(PipelineKind::Shadows),
        PrimitiveKind::Underlines => Some(PipelineKind::Underlines),
        _ => None,
    }
}

pub fn pipeline_for(kind: PrimitiveKind) -> (r: Option<PipelineKind>)
    ensures
        r == pipeline_for_spec(kind),
{
    match kind {
        PrimitiveKind::Quads => Some(PipelineKind::Quads),
        PrimitiveKind::Shadows => Some(PipelineKind::Shadows),
        PrimitiveKind::Underlines => Some(PipelineKind::Underlines),
        _ => None,
    }
}

/// Blend factors used by the pipelines.
#[derive(Clone, Copy, Debug, PartialEq, Eq, Structural)]
pub enum BlendFactor {
    SrcAlpha,
    OneMinusSrcAlpha,
    One,
}

/// Additive blending: `color = src * src_color + dst * dst_color`, and the
/// same for alpha with the alpha factors.
#[derive(Clone, Copy, Debug, PartialEq, Eq, Structural)]
pub struct BlendState {
    pub src_color: BlendFactor,
    pub dst_color: BlendFactor,
    pub src_alpha: BlendFactor,
    pub dst_alpha: BlendFactor,
}

/// The fixed state of every pipeline: no vertex input, a triangle list of
/// six vertices per instance, one viewport and scissor covering the render
/// target, single-sample rasterization, alpha blending, and one vertex-stage
/// push-constant range of eight bytes.
#[derive(Clone, Copy, Debug, PartialEq, Eq, Structural)]
pub struct PipelineState {
    pub viewport_width: u32,
    pub viewport_height: u32,
    pub vertices_per_instance: u32,
    pub sample_count: u32,
    pub push_constant_size: u32,
    pub blend: BlendState,
}

impl PipelineState {
    /// The state for a render target of `width` by `height` pixels.
    pub fn for_target(width: u32, height: u32) -> (r: PipelineState)
        ensures
            r.viewport_width == width,
            r.viewport_height == height,
            r.vertices_per_instance == VERTICES_PER_INSTANCE,
            r.sample_count == 1,
            r.push_constant_size == PUSH_CONSTANT_SIZE,
            r.blend == (BlendState {
                src_color: BlendFactor::SrcAlpha,
                dst_color: BlendFactor::OneMinusSrcAlpha,
                src_alpha: BlendFactor::One,
                dst_alpha: BlendFactor::One,
            }),
    {
        PipelineState {
            viewport_width: width,
            viewport_height: height,
            vertices_per_instance: VERTICES_PER_INSTANCE,
            sample_count: 1,
            push_constant_size: PUSH_CONSTANT_SIZE,
            blend: BlendState {
                src_color: BlendFactor::SrcAlpha,
                dst_color: BlendFactor::OneMinusSrcAlpha,
                src_alpha: BlendFactor::One,
                dst_alpha: BlendFactor::One,
            },
        }
    }
}

/// Relies on bytemuck::cast_slice: the two integers' bytes as they lie in
/// memory, four per integer.
#[verifier::external_body]
fn viewport_push_constants(width: i32, height: i32) -> (r: Vec<u8>)
    ensures
        r@.len() == PUSH_CONSTANT_SIZE,
{
    bytemuck::cast_slice::<i32, u8>(&[width, height]).to_vec()
}

/// One command recorded to bind a pipeline for a draw.
#[derive(Clone, Debug)]
pub enum BindCommand {
    BindPipeline { pipeline: PipelineKind },
    BindDescriptorSet { pipeline: PipelineKind, dynamic_offset: u32 },
    PushConstants { pipeline: PipelineKind, bytes: Vec<u8> },
}

/// The commands that prepare a draw with `pipeline` reading the staging
/// buffer at `dynamic_offset`, in the order they must be recorded: bind the
/// pipeline, bind the descriptor set with the dynamic offset, push the
/// viewport size.
pub fn bind_commands(pipeline: PipelineKind, dynamic_offset: u32, width: i32, height: i32) -> (r:
    Vec<BindCommand>)
    ensures
        r@.len() == 3,
        r@[0] == (BindCommand::BindPipeline { pipeline }),
        r@[1] == (BindCommand::BindDescriptorSet { pipeline, dynamic_offset }),
        r@[2] matches BindCommand::PushConstants { pipeline: p, bytes } && p == pipeline
            && bytes@.len() == PUSH_CONSTANT_SIZE,
{
    let mut r: Vec<BindCommand> = Vec::new();
    r.push(BindCommand::BindPipeline { pipeline });
    r.push(BindCommand::BindDescriptorSet { pipeline, dynamic_offset });
    r.push(BindCommand::PushConstants { pipeline, bytes: viewport_push_constants(width, height) });
    r
}

} // verus!
