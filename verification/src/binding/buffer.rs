//! Uniform buffers: the values a shader reads for a whole draw.

use crate::binding::{
    BindGroupLayoutEntry, Binding, BindingLayout, BindingResource, BindingType, Resources,
};
use crate::flags::{BufferUsage, ShaderStage};
use vstd::prelude::*;

verus! {

/// What the device needs to know to create a buffer.
#[derive(Clone, Copy, Debug, PartialEq, Eq, Structural)]
pub struct BufferDescriptor {
    /// Size in bytes.
    pub size: u64,
    pub usage: BufferUsage,
    pub mapped_at_creation: bool,
}

/// Layout of a uniform-buffer slot, with the size of the buffers created
/// from it.
#[derive(Clone, Copy, Debug, PartialEq, Eq, Structural)]
pub struct BufferBindingLayout {
    pub binding: u32,
    pub visibility: ShaderStage,
    /// Size in bytes.
    pub size: u64,
}

impl BufferBindingLayout {
    /// The layout of a uniform buffer of `size` bytes.
    pub fn new_uniform(binding: u32, visibility: ShaderStage, size: u64) -> (layout:
        BufferBindingLayout)
        ensures
            layout == (BufferBindingLayout { binding, visibility, size }),
    {
        BufferBindingLayout { binding, visibility, size }
    }

    /// Creates a binding from this layout: enters it in `resources` under
    /// the next free number and describes the buffer that the device has to
    /// create for it, a uniform buffer of this layout's size that can be
    /// written to.
    pub fn create_binding(&self, resources: &mut Resources) -> (binding: BufferBinding)
        ensures
            binding.id == old(resources)@.len(),
            binding.buffer.size == self.size,
            binding.buffer.usage@ == 72,
            !binding.buffer.mapped_at_creation,
            final(resources)@ == old(resources)@.push(self.entry()),
    {
        let id = resources.register(self.get_entry());
        let usage = BufferUsage::uniform().union(BufferUsage::copy_dst());
        assert(64u32 | 8u32 == 72u32) by (bit_vector);
        BufferBinding {
            id,
            buffer: BufferDescriptor { size: self.size, usage, mapped_at_creation: false },
        }
    }
}

impl BindingLayout for BufferBindingLayout {
    /// A uniform buffer at this layout's binding and visibility, bound whole
    /// and at a fixed offset.
    open spec fn entry(&self) -> BindGroupLayoutEntry {
        BindGroupLayoutEntry {
            binding: self.binding,
            visibility: self.visibility,
            ty: BindingType::UniformBuffer { dynamic: false, min_binding_size: None },
            count: None,
        }
    }

    fn get_entry(&self) -> (entry: BindGroupLayoutEntry) {
        BindGroupLayoutEntry {
            binding: self.binding,
            visibility: self.visibility,
            ty: BindingType::UniformBuffer { dynamic: false, min_binding_size: None },
            count: None,
        }
    }
}

/// A uniform buffer created from a [`BufferBindingLayout`].
#[derive(Clone, Copy, Debug, PartialEq, Eq, Structural)]
pub struct BufferBinding {
    /// The number of the buffer in the table of resources.
    pub id: usize,
    pub buffer: BufferDescriptor,
}

impl Binding for BufferBinding {
    open spec fn resource(&self) -> BindingResource {
        BindingResource::Buffer(self.id)
    }

    fn get_resource(&self) -> (resource: BindingResource) {
        BindingResource::Buffer(self.id)
    }
}

} // verus!
