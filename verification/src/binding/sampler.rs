//! Samplers: how a shader reads a texture.

use crate::binding::{
    BindGroupLayoutEntry, Binding, BindingLayout, BindingResource, BindingType, Resources,
};
use crate::flags::ShaderStage;
use vstd::prelude::*;

verus! {

/// What a sampler returns for coordinates outside the texture.
#[derive(Clone, Copy, Debug, PartialEq, Eq, Structural)]
pub enum AddressMode {
    ClampToEdge,
    Repeat,
    MirrorRepeat,
}

/// How a sampler combines the texels around a coordinate.
#[derive(Clone, Copy, Debug, PartialEq, Eq, Structural)]
pub enum FilterMode {
    Nearest,
    Linear,
}

/// Comparison of a new value with the one already there.
#[derive(Clone, Copy, Debug, PartialEq, Eq, Structural)]
pub enum CompareFunction {
    Never,
    Less,
    Equal,
    LessEqual,
    Greater,
    NotEqual,
    GreaterEqual,
    Always,
}

/// Address modes of a sampler in the three directions.
#[derive(Clone, Copy, Debug, PartialEq, Eq, Structural)]
pub struct SamplerAddressMode {
    pub u: AddressMode,
    pub v: AddressMode,
    pub w: AddressMode,
}

/// Filters of a sampler: for magnification, for minification and between mip
/// levels.
#[derive(Clone, Copy, Debug, PartialEq, Eq, Structural)]
pub struct SamplerFilterMode {
    pub mag: FilterMode,
    pub min: FilterMode,
    pub mipmap: FilterMode,
}

/// What the device needs to know to create a sampler.
#[derive(Clone, Copy, Debug, PartialEq, Eq, Structural)]
pub struct SamplerDescriptor {
    pub address_mode_u: AddressMode,
    pub address_mode_v: AddressMode,
    pub address_mode_w: AddressMode,
    pub mag_filter: FilterMode,
    pub min_filter: FilterMode,
    pub mipmap_filter: FilterMode,
    pub compare: Option<CompareFunction>,
}

/// Layout of a sampler slot, with the parameters of the samplers created
/// from it.
#[derive(Clone, Copy, Debug, PartialEq, Eq, Structural)]
pub struct SamplerBindingLayout {
    pub binding: u32,
    pub visibility: ShaderStage,
    pub address_mode: SamplerAddressMode,
    pub filter_mode: SamplerFilterMode,
    pub compare: Option<CompareFunction>,
}

impl SamplerBindingLayout {
    /// A sampler layout with the given parameters; with a comparison
    /// function the samplers compare, without one they filter.
    pub fn new(
        binding: u32,
        visibility: ShaderStage,
        address_mode: SamplerAddressMode,
        filter_mode: SamplerFilterMode,
        compare: Option<CompareFunction>,
    ) -> (layout: SamplerBindingLayout)
        ensures
            layout == (SamplerBindingLayout {
                binding,
                visibility,
                address_mode,
                filter_mode,
                compare,
            }),
    {
        SamplerBindingLayout { binding, visibility, address_mode, filter_mode, compare }
    }

    /// The sampler created from this layout.
    pub open spec fn sampler_descriptor(&self) -> SamplerDescriptor {
        SamplerDescriptor {
            address_mode_u: self.address_mode.u,
            address_mode_v: self.address_mode.v,
            address_mode_w: self.address_mode.w,
            mag_filter: self.filter_mode.mag,
            min_filter: self.filter_mode.min,
            mipmap_filter: self.filter_mode.mipmap,
            compare: self.compare,
        }
    }

    /// Creates a binding from this layout: enters it in `resources` under
    /// the next free number and describes the sampler that the device has to
    /// create for it.
    pub fn create_binding(&self, resources: &mut Resources) -> (binding: SamplerBinding)
        ensures
            binding.id == old(resources)@.len(),
            binding.sampler == self.sampler_descriptor(),
            final(resources)@ == old(resources)@.push(self.entry()),
    {
        let id = resources.register(self.get_entry());
        SamplerBinding {
            id,
            sampler: SamplerDescriptor {
                address_mode_u: self.address_mode.u,
                address_mode_v: self.address_mode.v,
                address_mode_w: self.address_mode.w,
                mag_filter: self.filter_mode.mag,
                min_filter: self.filter_mode.min,
                mipmap_filter: self.filter_mode.mipmap,
                compare: self.compare,
            },
        }
    }
}

impl BindingLayout for SamplerBindingLayout {
    /// A sampler at this layout's binding and visibility, comparing exactly
    /// if the layout has a comparison function.
    open spec fn entry(&self) -> BindGroupLayoutEntry {
        BindGroupLayoutEntry {
            binding: self.binding,
            visibility: self.visibility,
            ty: BindingType::Sampler { comparison: self.compare is Some },
            count: None,
        }
    }

    fn get_entry(&self) -> (entry: BindGroupLayoutEntry) {
        BindGroupLayoutEntry {
            binding: self.binding,
            visibility: self.visibility,
            ty: BindingType::Sampler { comparison: self.compare.is_some() },
            count: None,
        }
    }
}

/// A sampler created from a [`SamplerBindingLayout`].
#[derive(Clone, Copy, Debug, PartialEq, Eq, Structural)]
pub struct SamplerBinding {
    /// The number of the sampler in the table of resources.
    pub id: usize,
    pub sampler: SamplerDescriptor,
}

impl Binding for SamplerBinding {
    open spec fn resource(&self) -> BindingResource {
        BindingResource::Sampler(self.id)
    }

    fn get_resource(&self) -> (resource: BindingResource) {
        BindingResource::Sampler(self.id)
    }
}

} // verus!
