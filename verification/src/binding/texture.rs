//! Textures that a pass renders into and a later pass samples.

use crate::binding::{
    BindGroupLayoutEntry, Binding, BindingLayout, BindingResource, BindingType, Resources,
    TextureComponentType, TextureViewDimension,
};
use crate::flags::{ShaderStage, TextureUsage};
use crate::format::TextureFormat;
use vstd::prelude::*;

verus! {

/// Extent of a texture in texels.
#[derive(Clone, Copy, Debug, PartialEq, Eq, Structural)]
pub struct Extent3d {
    pub width: u32,
    pub height: u32,
    pub depth: u32,
}

/// Dimensionality of a texture.
#[derive(Clone, Copy, Debug, PartialEq, Eq, Structural)]
pub enum TextureDimension {
    D1,
    D2,
    D3,
}

/// The aspects of a texture that a view shows.
#[derive(Clone, Copy, Debug, PartialEq, Eq, Structural)]
pub enum TextureAspect {
    All,
    StencilOnly,
    DepthOnly,
}

/// What the device needs to know to create a texture.
#[derive(Clone, Copy, Debug, PartialEq, Eq, Structural)]
pub struct TextureDescriptor {
    pub size: Extent3d,
    pub mip_level_count: u32,
    pub sample_count: u32,
    pub dimension: TextureDimension,
    pub format: TextureFormat,
    pub usage: TextureUsage,
}

/// What the device needs to know to create a view of a texture. A field that
/// is `None` is taken from the texture.
#[derive(Clone, Copy, Debug, PartialEq, Eq, Structural)]
pub struct TextureViewDescriptor {
    pub format: Option<TextureFormat>,
    pub dimension: Option<TextureViewDimension>,
    pub aspect: TextureAspect,
    pub base_mip_level: u32,
    pub level_count: Option<u32>,
    pub base_array_layer: u32,
    pub array_layer_count: Option<u32>,
}

/// Layout of a texture slot, with the size, format and usage of the textures
/// created from it.
#[derive(Clone, Copy, Debug, PartialEq, Eq, Structural)]
pub struct TextureBindingLayout {
    pub binding: u32,
    pub visibility: ShaderStage,
    pub size: Extent3d,
    pub format: TextureFormat,
    pub usage: TextureUsage,
}

impl TextureBindingLayout {
    /// The layout of a texture that is the output of one pass and sampled in
    /// another: its usage is `OUTPUT_ATTACHMENT | SAMPLED`.
    pub fn new_sampled_output(
        binding: u32,
        visibility: ShaderStage,
        size: Extent3d,
        format: TextureFormat,
    ) -> (layout: TextureBindingLayout)
        ensures
            layout.binding == binding,
            layout.visibility == visibility,
            layout.size == size,
            layout.format == format,
            layout.usage@ == 20,
    {
        let usage = TextureUsage::output_attachment().union(TextureUsage::sampled());
        assert(16u32 | 4u32 == 20u32) by (bit_vector);
        TextureBindingLayout { binding, visibility, size, format, usage }
    }
}

impl BindingLayout for TextureBindingLayout {
    /// A sampled texture of float components, seen as a 2D array and not
    /// multisampled, at this layout's binding and visibility.
    open spec fn entry(&self) -> BindGroupLayoutEntry {
        BindGroupLayoutEntry {
            binding: self.binding,
            visibility: self.visibility,
            ty: BindingType::SampledTexture {
                dimension: TextureViewDimension::D2Array,
                component_type: TextureComponentType::Float,
                multisampled: false,
            },
            count: None,
        }
    }

    fn get_entry(&self) -> (entry: BindGroupLayoutEntry) {
        BindGroupLayoutEntry {
            binding: self.binding,
            visibility: self.visibility,
            ty: BindingType::SampledTexture {
                dimension: TextureViewDimension::D2Array,
                component_type: TextureComponentType::Float,
                multisampled: false,
            },
            count: None,
        }
    }
}

impl TextureBindingLayout {
    /// The texture created from this layout: two-dimensional, with one mip
    /// level and one sample, of this layout's size, format and usage.
    pub open spec fn texture_descriptor(&self) -> TextureDescriptor {
        TextureDescriptor {
            size: self.size,
            mip_level_count: 1,
            sample_count: 1,
            dimension: TextureDimension::D2,
            format: self.format,
            usage: self.usage,
        }
    }

    /// The view bound for a texture of this layout: all aspects of the whole
    /// texture, seen as two-dimensional, in the texture's own format.
    pub open spec fn view_descriptor(&self) -> TextureViewDescriptor {
        TextureViewDescriptor {
            format: None,
            dimension: Some(TextureViewDimension::D2),
            aspect: TextureAspect::All,
            base_mip_level: 0,
            level_count: None,
            base_array_layer: 0,
            array_layer_count: None,
        }
    }

    /// Creates a binding from this layout: enters it in `resources` under
    /// the next free number and describes the texture and the view that the
    /// device has to create for it.
    pub fn create_binding(&self, resources: &mut Resources) -> (binding: TextureBinding)
        ensures
            binding.id == old(resources)@.len(),
            binding.texture == self.texture_descriptor(),
            binding.view == self.view_descriptor(),
            final(resources)@ == old(resources)@.push(self.entry()),
    {
        let id = resources.register(self.get_entry());
        TextureBinding {
            id,
            texture: TextureDescriptor {
                size: self.size,
                mip_level_count: 1,
                sample_count: 1,
                dimension: TextureDimension::D2,
                format: self.format,
                usage: self.usage,
            },
            view: TextureViewDescriptor {
                format: None,
                dimension: Some(TextureViewDimension::D2),
                aspect: TextureAspect::All,
                base_mip_level: 0,
                level_count: None,
                base_array_layer: 0,
                array_layer_count: None,
            },
        }
    }
}

/// A texture created from a [`TextureBindingLayout`], bound through a view.
#[derive(Clone, Copy, Debug, PartialEq, Eq, Structural)]
pub struct TextureBinding {
    /// The number of the texture view in the table of resources.
    pub id: usize,
    pub texture: TextureDescriptor,
    pub view: TextureViewDescriptor,
}

impl Binding for TextureBinding {
    open spec fn resource(&self) -> BindingResource {
        BindingResource::TextureView(self.id)
    }

    fn get_resource(&self) -> (resource: BindingResource) {
        BindingResource::TextureView(self.id)
    }
}

} // verus!
