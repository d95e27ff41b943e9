//! Texel and vertex formats, named as the GPU interface names them.

use vstd::prelude::*;

verus! {

/// Format of the texels of a texture.
#[derive(Clone, Copy, Debug, PartialEq, Eq, Structural)]
pub enum TextureFormat {
    R8Unorm,
    R8Snorm,
    R8Uint,
    R8Sint,
    R16Uint,
    R16Sint,
    R16Float,
    Rg8Unorm,
    Rg8Snorm,
    Rg8Uint,
    Rg8Sint,
    R32Uint,
    R32Sint,
    R32Float,
    Rg16Uint,
    Rg16Sint,
    Rg16Float,
    Rgba8Unorm,
    Rgba8UnormSrgb,
    Rgba8Snorm,
    Rgba8Uint,
    Rgba8Sint,
    Bgra8Unorm,
    Bgra8UnormSrgb,
    Rgb10a2Unorm,
    Rg11b10Float,
    Rg32Uint,
    Rg32Sint,
    Rg32Float,
    Rgba16Uint,
    Rgba16Sint,
    Rgba16Float,
    Rgba32Uint,
    Rgba32Sint,
    Rgba32Float,
    Depth32Float,
    Depth24Plus,
    Depth24PlusStencil8,
    Bc1RgbaUnorm,
    Bc1RgbaUnormSrgb,
    Bc2RgbaUnorm,
    Bc2RgbaUnormSrgb,
    Bc3RgbaUnorm,
    Bc3RgbaUnormSrgb,
    Bc4RUnorm,
    Bc4RSnorm,
    Bc5RgUnorm,
    Bc5RgSnorm,
    Bc6hRgbUfloat,
    Bc6hRgbSfloat,
    Bc7RgbaUnorm,
    Bc7RgbaUnormSrgb,
}

/// Format of one attribute of a vertex.
#[derive(Clone, Copy, Debug, PartialEq, Eq, Structural)]
pub enum VertexFormat {
    Uchar2,
    Uchar4,
    Char2,
    Char4,
    Uchar2Norm,
    Uchar4Norm,
    Char2Norm,
    Char4Norm,
    Ushort2,
    Ushort4,
    Short2,
    Short4,
    Ushort2Norm,
    Ushort4Norm,
    Short2Norm,
    Short4Norm,
    Half2,
    Half4,
    Float,
    Float2,
    Float3,
    Float4,
    Uint,
    Uint2,
    Uint3,
    Uint4,
    Int,
    Int2,
    Int3,
    Int4,
}

impl VertexFormat {
    /// Number of components of an attribute of this format.
    pub open spec fn components(self) -> nat {
        match self {
            VertexFormat::Float
            | VertexFormat::Uint
            | VertexFormat::Int => 1,
            VertexFormat::Uchar2
            | VertexFormat::Char2
            | VertexFormat::Uchar2Norm
            | VertexFormat::Char2Norm
            | VertexFormat::Ushort2
            | VertexFormat::Short2
            | VertexFormat::Ushort2Norm
            | VertexFormat::Short2Norm
            | VertexFormat::Half2
            | VertexFormat::Float2
            | VertexFormat::Uint2
            | VertexFormat::Int2 => 2,
            VertexFormat::Float3
            | VertexFormat::Uint3
            | VertexFormat::Int3 => 3,
            VertexFormat::Uchar4
            | VertexFormat::Char4
            | VertexFormat::Uchar4Norm
            | VertexFormat::Char4Norm
            | VertexFormat::Ushort4
            | VertexFormat::Short4
            | VertexFormat::Ushort4Norm
            | VertexFormat::Short4Norm
            | VertexFormat::Half4
            | VertexFormat::Float4
            | VertexFormat::Uint4
            | VertexFormat::Int4 => 4,
        }
    }

    /// Bytes taken by one component of an attribute of this format.
    pub open spec fn component_bytes(self) -> nat {
        match self {
            VertexFormat::Uchar2
            | VertexFormat::Uchar4
            | VertexFormat::Char2
            | VertexFormat::Char4
            | VertexFormat::Uchar2Norm
            | VertexFormat::Uchar4Norm
            | VertexFormat::Char2Norm
            | VertexFormat::Char4Norm => 1,
            VertexFormat::Ushort2
            | VertexFormat::Ushort4
            | VertexFormat::Short2
            | VertexFormat::Short4
            | VertexFormat::Ushort2Norm
            | VertexFormat::Ushort4Norm
            | VertexFormat::Short2Norm
            | VertexFormat::Short4Norm
            | VertexFormat::Half2
            | VertexFormat::Half4 => 2,
            VertexFormat::Float
            | VertexFormat::Float2
            | VertexFormat::Float3
            | VertexFormat::Float4
            | VertexFormat::Uint
            | VertexFormat::Uint2
            | VertexFormat::Uint3
            | VertexFormat::Uint4
            | VertexFormat::Int
            | VertexFormat::Int2
            | VertexFormat::Int3
            | VertexFormat::Int4 => 4,
        }
    }

    /// Bytes taken by an attribute of this format: its components, tightly
    /// packed.
    pub open spec fn size_spec(self) -> nat {
        self.components() * self.component_bytes()
    }

    /// Bytes taken by an attribute of this format.
    pub fn size(self) -> (bytes: u64)
        ensures
            bytes == self.size_spec(),
            1 <= bytes <= 16,
    {
        match self {
            VertexFormat::Uchar2
            | VertexFormat::Char2
            | VertexFormat::Uchar2Norm
            | VertexFormat::Char2Norm => 2,
            VertexFormat::Uchar4
            | VertexFormat::Char4
            | VertexFormat::Uchar4Norm
            | VertexFormat::Char4Norm
            | VertexFormat::Ushort2
            | VertexFormat::Short2
            | VertexFormat::Ushort2Norm
            | VertexFormat::Short2Norm
            | VertexFormat::Half2
            | VertexFormat::Float
            | VertexFormat::Uint
            | VertexFormat::Int => 4,
            VertexFormat::Ushort4
            | VertexFormat::Short4
            | VertexFormat::Ushort4Norm
            | VertexFormat::Short4Norm
            | VertexFormat::Half4
            | VertexFormat::Float2
            | VertexFormat::Uint2
            | VertexFormat::Int2 => 8,
            VertexFormat::Float3
            | VertexFormat::Uint3
            | VertexFormat::Int3 => 12,
            VertexFormat::Float4
            | VertexFormat::Uint4
            | VertexFormat::Int4 => 16,
        }
    }
}

} // verus!
