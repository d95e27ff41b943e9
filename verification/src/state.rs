//! Fixed-function state of a pipeline: blending, depth test, rasterization.

use crate::binding::sampler::CompareFunction;
use crate::format::TextureFormat;
use vstd::prelude::*;

verus! {

/// Mask of all four color channels.
pub const COLOR_WRITE_ALL: u32 = 15;

/// Factor of a blend equation.
#[derive(Clone, Copy, Debug, PartialEq, Eq, Structural)]
pub enum BlendFactor {
    Zero,
    One,
    SrcColor,
    OneMinusSrcColor,
    SrcAlpha,
    OneMinusSrcAlpha,
    DstColor,
    OneMinusDstColor,
    DstAlpha,
    OneMinusDstAlpha,
    SrcAlphaSaturated,
    BlendColor,
    OneMinusBlendColor,
}

/// Operation of a blend equation.
#[derive(Clone, Copy, Debug, PartialEq, Eq, Structural)]
pub enum BlendOperation {
    Add,
    Subtract,
    ReverseSubtract,
    Min,
    Max,
}

/// A blend equation: `operation(src_factor * src, dst_factor * dst)`.
#[derive(Clone, Copy, Debug, PartialEq, Eq, Structural)]
pub struct BlendDescriptor {
    pub src_factor: BlendFactor,
    pub dst_factor: BlendFactor,
    pub operation: BlendOperation,
}

impl BlendDescriptor {
    /// The equation that replaces the destination by the source.
    pub fn replace() -> (blend: BlendDescriptor)
        ensures
            blend == (BlendDescriptor {
                src_factor: BlendFactor::One,
                dst_factor: BlendFactor::Zero,
                operation: BlendOperation::Add,
            }),
    {
        BlendDescriptor {
            src_factor: BlendFactor::One,
            dst_factor: BlendFactor::Zero,
            operation: BlendOperation::Add,
        }
    }
}

/// Color output of a pipeline.
#[derive(Clone, Copy, Debug, PartialEq, Eq, Structural)]
pub struct ColorStateDescriptor {
    /// Format of the color attachment the pipeline writes to.
    pub format: TextureFormat,
    pub color_blend: BlendDescriptor,
    pub alpha_blend: BlendDescriptor,
    /// Mask of the channels written: red 1, green 2, blue 4, alpha 8.
    pub write_mask: u32,
}

/// Depth test of a pipeline.
#[derive(Clone, Copy, Debug, PartialEq, Eq, Structural)]
pub struct DepthStencilStateDescriptor {
    /// Format of the depth attachment the pipeline tests against.
    pub format: TextureFormat,
    pub depth_write_enabled: bool,
    pub depth_compare: CompareFunction,
}

/// Which winding is the front of a triangle.
#[derive(Clone, Copy, Debug, PartialEq, Eq, Structural)]
pub enum FrontFace {
    Ccw,
    Cw,
}

/// Which side of a triangle is dropped.
#[derive(Clone, Copy, Debug, PartialEq, Eq, Structural)]
pub enum CullMode {
    /// No side is dropped.
    Off,
    Front,
    Back,
}

/// Rasterization of a pipeline. The slope scale and the clamp of the depth
/// bias are single-precision bit patterns.
#[derive(Clone, Copy, Debug, PartialEq, Eq, Structural)]
pub struct RasterizationStateDescriptor {
    pub front_face: FrontFace,
    pub cull_mode: CullMode,
    pub clamp_depth: bool,
    pub depth_bias: i32,
    pub depth_bias_slope_scale: u32,
    pub depth_bias_clamp: u32,
}

impl RasterizationStateDescriptor {
    /// Rasterization that culls `cull_mode` faces, with counter-clockwise
    /// fronts, no depth clamping and no depth bias.
    pub fn culling(cull_mode: CullMode) -> (state: RasterizationStateDescriptor)
        ensures
            state == (RasterizationStateDescriptor {
                front_face: FrontFace::Ccw,
                cull_mode,
                clamp_depth: false,
                depth_bias: 0,
                depth_bias_slope_scale: 0,
                depth_bias_clamp: 0,
            }),
    {
        RasterizationStateDescriptor {
            front_face: FrontFace::Ccw,
            cull_mode,
            clamp_depth: false,
            depth_bias: 0,
            depth_bias_slope_scale: 0,
            depth_bias_clamp: 0,
        }
    }
}

/// How vertices are assembled into primitives.
#[derive(Clone, Copy, Debug, PartialEq, Eq, Structural)]
pub enum PrimitiveTopology {
    PointList,
    LineList,
    LineStrip,
    TriangleList,
    TriangleStrip,
}

/// Width of the indices of a geometry.
#[derive(Clone, Copy, Debug, PartialEq, Eq, Structural)]
pub enum IndexFormat {
    Uint16,
    Uint32,
}

} // verus!
