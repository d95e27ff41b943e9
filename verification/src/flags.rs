//! Bit masks shared with the GPU interface: shader-stage visibility, texture
//! usage and buffer usage. Their views are the raw masks, which are the masks
//! of the `wgpu` types of the same names.

use vstd::prelude::*;

verus! {

/// Union of all shader-stage bits.
pub const STAGE_MASK: u32 = 7;

/// Union of all texture-usage bits.
pub const USAGE_MASK: u32 = 31;

/// Union of all buffer-usage bits.
pub const BUFFER_USAGE_MASK: u32 = 511;

/// Whether every bit of `bits` lies inside `mask`.
pub open spec fn within(bits: u32, mask: u32) -> bool {
    bits & !mask == 0
}

/// The shader stages a binding is visible from.
#[derive(Clone, Copy, Debug, PartialEq, Eq, Structural)]
pub struct ShaderStage {
    bits: u32,
}

impl View for ShaderStage {
    type V = u32;

    closed spec fn view(&self) -> u32 {
        self.bits
    }
}

/// `wgpu::ShaderStage::VERTEX` as a raw mask; the flag is declared with the
/// value 1.
#[verifier::external_body]
fn vertex_stage_bits() -> (bits: u32)
    ensures
        bits == 1,
{
    wgpu::ShaderStage::VERTEX.bits()
}

/// `wgpu::ShaderStage::FRAGMENT` as a raw mask; the flag is declared with the
/// value 2.
#[verifier::external_body]
fn fragment_stage_bits() -> (bits: u32)
    ensures
        bits == 2,
{
    wgpu::ShaderStage::FRAGMENT.bits()
}

/// `wgpu::ShaderStage::COMPUTE` as a raw mask; the flag is declared with the
/// value 4.
#[verifier::external_body]
fn compute_stage_bits() -> (bits: u32)
    ensures
        bits == 4,
{
    wgpu::ShaderStage::COMPUTE.bits()
}

impl ShaderStage {
    #[verifier::type_invariant]
    spec fn valid(self) -> bool {
        within(self.bits, STAGE_MASK)
    }

    /// Visible from no stage.
    pub fn none() -> (stage: ShaderStage)
        ensures
            stage@ == 0,
    {
        assert(within(0, STAGE_MASK)) by (bit_vector);
        ShaderStage { bits: 0 }
    }

    /// Visible from the vertex shader.
    pub fn vertex() -> (stage: ShaderStage)
        ensures
            stage@ == 1,
    {
        assert(within(1, STAGE_MASK)) by (bit_vector);
        ShaderStage { bits: vertex_stage_bits() }
    }

    /// Visible from the fragment shader.
    pub fn fragment() -> (stage: ShaderStage)
        ensures
            stage@ == 2,
    {
        assert(within(2, STAGE_MASK)) by (bit_vector);
        ShaderStage { bits: fragment_stage_bits() }
    }

    /// Visible from the compute shader.
    pub fn compute() -> (stage: ShaderStage)
        ensures
            stage@ == 4,
    {
        assert(within(4, STAGE_MASK)) by (bit_vector);
        ShaderStage { bits: compute_stage_bits() }
    }

    /// The stage set with this raw mask, if the mask names stages only.
    pub fn from_bits(bits: u32) -> (stage: Option<ShaderStage>)
        ensures
            stage is Some <==> within(bits, STAGE_MASK),
            stage is Some ==> stage->0@ == bits,
    {
        if bits & !STAGE_MASK == 0 {
            Some(ShaderStage { bits })
        } else {
            None
        }
    }

    /// The raw mask.
    pub fn bits(&self) -> (bits: u32)
        ensures
            bits == self@,
            within(bits, STAGE_MASK),
    {
        proof {
            use_type_invariant(self);
        }
        self.bits
    }

    /// The stages of either set.
    pub fn union(self, other: ShaderStage) -> (stage: ShaderStage)
        ensures
            stage@ == self@ | other@,
    {
        proof {
            use_type_invariant(self);
            use_type_invariant(other);
        }
        let a: u32 = self.bits;
        let b: u32 = other.bits;
        assert(within(a | b, STAGE_MASK)) by (bit_vector)
            requires
                within(a, STAGE_MASK),
                within(b, STAGE_MASK),
        ;
        ShaderStage { bits: a | b }
    }

    /// Whether every stage of `other` is in this set.
    pub fn contains(&self, other: ShaderStage) -> (yes: bool)
        ensures
            yes <==> self@ & other@ == other@,
    {
        self.bits & other.bits == other.bits
    }
}

/// The ways a texture may be used.
#[derive(Clone, Copy, Debug, PartialEq, Eq, Structural)]
pub struct TextureUsage {
    bits: u32,
}

impl View for TextureUsage {
    type V = u32;

    closed spec fn view(&self) -> u32 {
        self.bits
    }
}

/// `wgpu::TextureUsage::SAMPLED` as a raw mask; the flag is declared with the
/// value 4.
#[verifier::external_body]
fn sampled_usage_bits() -> (bits: u32)
    ensures
        bits == 4,
{
    wgpu::TextureUsage::SAMPLED.bits()
}

/// `wgpu::TextureUsage::OUTPUT_ATTACHMENT` as a raw mask; the flag is
/// declared with the value 16.
#[verifier::external_body]
fn output_attachment_usage_bits() -> (bits: u32)
    ensures
        bits == 16,
{
    wgpu::TextureUsage::OUTPUT_ATTACHMENT.bits()
}

impl TextureUsage {
    #[verifier::type_invariant]
    spec fn valid(self) -> bool {
        within(self.bits, USAGE_MASK)
    }

    /// The texture can be bound and sampled in a shader.
    pub fn sampled() -> (usage: TextureUsage)
        ensures
            usage@ == 4,
    {
        assert(within(4, USAGE_MASK)) by (bit_vector);
        TextureUsage { bits: sampled_usage_bits() }
    }

    /// The texture can be the target of a render pass.
    pub fn output_attachment() -> (usage: TextureUsage)
        ensures
            usage@ == 16,
    {
        assert(within(16, USAGE_MASK)) by (bit_vector);
        TextureUsage { bits: output_attachment_usage_bits() }
    }

    /// The raw mask.
    pub fn bits(&self) -> (bits: u32)
        ensures
            bits == self@,
            within(bits, USAGE_MASK),
    {
        proof {
            use_type_invariant(self);
        }
        self.bits
    }

    /// The usages of either set.
    pub fn union(self, other: TextureUsage) -> (usage: TextureUsage)
        ensures
            usage@ == self@ | other@,
    {
        proof {
            use_type_invariant(self);
            use_type_invariant(other);
        }
        let a: u32 = self.bits;
        let b: u32 = other.bits;
        assert(within(a | b, USAGE_MASK)) by (bit_vector)
            requires
                within(a, USAGE_MASK),
                within(b, USAGE_MASK),
        ;
        TextureUsage { bits: a | b }
    }
}

/// The ways a buffer may be used.
#[derive(Clone, Copy, Debug, PartialEq, Eq, Structural)]
pub struct BufferUsage {
    bits: u32,
}

impl View for BufferUsage {
    type V = u32;

    closed spec fn view(&self) -> u32 {
        self.bits
    }
}

/// `wgpu::BufferUsage::COPY_DST` as a raw mask; the flag is declared with the
/// value 8.
#[verifier::external_body]
fn copy_dst_usage_bits() -> (bits: u32)
    ensures
        bits == 8,
{
    wgpu::BufferUsage::COPY_DST.bits()
}

/// `wgpu::BufferUsage::INDEX` as a raw mask; the flag is declared with the
/// value 16.
#[verifier::external_body]
fn index_usage_bits() -> (bits: u32)
    ensures
        bits == 16,
{
    wgpu::BufferUsage::INDEX.bits()
}

/// `wgpu::BufferUsage::VERTEX` as a raw mask; the flag is declared with the
/// value 32.
#[verifier::external_body]
fn vertex_usage_bits() -> (bits: u32)
    ensures
        bits == 32,
{
    wgpu::BufferUsage::VERTEX.bits()
}

/// `wgpu::BufferUsage::UNIFORM` as a raw mask; the flag is declared with the
/// value 64.
#[verifier::external_body]
fn uniform_usage_bits() -> (bits: u32)
    ensures
        bits == 64,
{
    wgpu::BufferUsage::UNIFORM.bits()
}

impl BufferUsage {
    #[verifier::type_invariant]
    spec fn valid(self) -> bool {
        within(self.bits, BUFFER_USAGE_MASK)
    }

    /// Data can be written into the buffer.
    pub fn copy_dst() -> (usage: BufferUsage)
        ensures
            usage@ == 8,
    {
        assert(within(8, BUFFER_USAGE_MASK)) by (bit_vector);
        BufferUsage { bits: copy_dst_usage_bits() }
    }

    /// The buffer can be bound as an index buffer.
    pub fn index() -> (usage: BufferUsage)
        ensures
            usage@ == 16,
    {
        assert(within(16, BUFFER_USAGE_MASK)) by (bit_vector);
        BufferUsage { bits: index_usage_bits() }
    }

    /// The buffer can be bound as a vertex buffer.
    pub fn vertex() -> (usage: BufferUsage)
        ensures
            usage@ == 32,
    {
        assert(within(32, BUFFER_USAGE_MASK)) by (bit_vector);
        BufferUsage { bits: vertex_usage_bits() }
    }

    /// The buffer can be bound as a uniform buffer.
    pub fn uniform() -> (usage: BufferUsage)
        ensures
            usage@ == 64,
    {
        assert(within(64, BUFFER_USAGE_MASK)) by (bit_vector);
        BufferUsage { bits: uniform_usage_bits() }
    }

    /// The raw mask.
    pub fn bits(&self) -> (bits: u32)
        ensures
            bits == self@,
            within(bits, BUFFER_USAGE_MASK),
    {
        proof {
            use_type_invariant(self);
        }
        self.bits
    }

    /// The usages of either set.
    pub fn union(self, other: BufferUsage) -> (usage: BufferUsage)
        ensures
            usage@ == self@ | other@,
    {
        proof {
            use_type_invariant(self);
            use_type_invariant(other);
        }
        let a: u32 = self.bits;
        let b: u32 = other.bits;
        assert(within(a | b, BUFFER_USAGE_MASK)) by (bit_vector)
            requires
                within(a, BUFFER_USAGE_MASK),
                within(b, BUFFER_USAGE_MASK),
        ;
        BufferUsage { bits: a | b }
    }
}

} // verus!
