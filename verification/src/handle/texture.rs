//! Textures and samplers of a scene. They have no state on the CPU: updating
//! them writes nothing.

use crate::binding::sampler::{
    CompareFunction, SamplerAddressMode, SamplerBinding, SamplerBindingLayout, SamplerFilterMode,
};
use crate::binding::texture::{Extent3d, TextureBinding, TextureBindingLayout};
use crate::binding::{BindGroupLayoutEntry, Binding, BindingLayout, BindingResource};
use crate::flags::ShaderStage;
use crate::format::TextureFormat;
use crate::graphics::{GraphicsManager, GraphicsView};
use crate::handle::BindingHandle;
use crate::render_pass::TextureView;
use vstd::prelude::*;

verus! {

/// Layout of the slot of a texture that one pass draws and another samples.
#[derive(Clone, Copy, Debug, PartialEq, Eq, Structural)]
pub struct TextureHandleLayout {
    pub layout: TextureBindingLayout,
}

impl TextureHandleLayout {
    /// The layout of a texture of the given size and format at `binding`,
    /// seen by the stages of `visibility`; the texture can be drawn into and
    /// sampled.
    pub fn new(
        binding: u32,
        visibility: ShaderStage,
        size: Extent3d,
        format: TextureFormat,
    ) -> (layout: TextureHandleLayout)
        ensures
            layout.layout.binding == binding,
            layout.layout.visibility == visibility,
            layout.layout.size == size,
            layout.layout.format == format,
            layout.layout.usage@ == 20,
    {
        TextureHandleLayout {
            layout: TextureBindingLayout::new_sampled_output(binding, visibility, size, format),
        }
    }

    /// Creates a texture, entered in the table of resources under the next
    /// free number.
    pub fn create_handle(&self, graphics: &mut GraphicsManager) -> (texture: TextureHandle)
        ensures
            texture.binding.id == old(graphics)@.resources.len(),
            texture.binding.texture == self.layout.texture_descriptor(),
            texture.binding.view == self.layout.view_descriptor(),
            final(graphics)@ == (GraphicsView {
                resources: old(graphics)@.resources.push(self.entry()),
                ..old(graphics)@
            }),
    {
        TextureHandle { binding: graphics.create_texture(&self.layout) }
    }
}

impl BindingLayout for TextureHandleLayout {
    open spec fn entry(&self) -> BindGroupLayoutEntry {
        self.layout.entry()
    }

    fn get_entry(&self) -> (entry: BindGroupLayoutEntry) {
        self.layout.get_entry()
    }
}

/// A texture of a scene.
#[derive(Clone, Copy, Debug, PartialEq, Eq, Structural)]
pub struct TextureHandle {
    pub binding: TextureBinding,
}

impl TextureHandle {
    /// Creates a view of the texture that a pass can draw into; its number
    /// is the count of views created before it.
    pub fn create_texture_view(&self, graphics: &mut GraphicsManager) -> (view: TextureView)
        ensures
            view.id == old(graphics)@.views.len(),
            view.format == self.binding.texture.format,
            final(graphics)@ == (GraphicsView {
                views: old(graphics)@.views.push(self.binding.texture),
                ..old(graphics)@
            }),
    {
        graphics.create_texture_view(self.binding.texture)
    }
}

impl Binding for TextureHandle {
    open spec fn resource(&self) -> BindingResource {
        BindingResource::TextureView(self.binding.id)
    }

    fn get_resource(&self) -> (resource: BindingResource) {
        BindingResource::TextureView(self.binding.id)
    }
}

impl BindingHandle for TextureHandle {
    open spec fn contents(&self) -> Seq<u8> {
        Seq::empty()
    }

    fn write(&self) -> (bytes: Vec<u8>) {
        Vec::new()
    }
}

/// Layout of the slot of a sampler.
#[derive(Clone, Copy, Debug, PartialEq, Eq, Structural)]
pub struct SamplerHandleLayout {
    pub layout: SamplerBindingLayout,
}

impl SamplerHandleLayout {
    /// The layout of a sampler with the given parameters at `binding`, seen
    /// by the stages of `visibility`.
    pub fn new(
        binding: u32,
        visibility: ShaderStage,
        address_mode: SamplerAddressMode,
        filter_mode: SamplerFilterMode,
        compare: Option<CompareFunction>,
    ) -> (layout: SamplerHandleLayout)
        ensures
            layout.layout == (SamplerBindingLayout {
                binding,
                visibility,
                address_mode,
                filter_mode,
                compare,
            }),
    {
        SamplerHandleLayout {
            layout: SamplerBindingLayout::new(
                binding,
                visibility,
                address_mode,
                filter_mode,
                compare,
            ),
        }
    }

    /// Creates a sampler, entered in the table of resources under the next
    /// free number.
    pub fn create_handle(&self, graphics: &mut GraphicsManager) -> (sampler: SamplerHandle)
        ensures
            sampler.binding.id == old(graphics)@.resources.len(),
            sampler.binding.sampler == self.layout.sampler_descriptor(),
            final(graphics)@ == (GraphicsView {
                resources: old(graphics)@.resources.push(self.entry()),
                ..old(graphics)@
            }),
    {
        SamplerHandle { binding: graphics.create_sampler(&self.layout) }
    }
}

impl BindingLayout for SamplerHandleLayout {
    open spec fn entry(&self) -> BindGroupLayoutEntry {
        self.layout.entry()
    }

    fn get_entry(&self) -> (entry: BindGroupLayoutEntry) {
        self.layout.get_entry()
    }
}

/// A sampler of a scene.
#[derive(Clone, Copy, Debug, PartialEq, Eq, Structural)]
pub struct SamplerHandle {
    pub binding: SamplerBinding,
}

impl Binding for SamplerHandle {
    open spec fn resource(&self) -> BindingResource {
        BindingResource::Sampler(self.binding.id)
    }

    fn get_resource(&self) -> (resource: BindingResource) {
        BindingResource::Sampler(self.binding.id)
    }
}

impl BindingHandle for SamplerHandle {
    open spec fn contents(&self) -> Seq<u8> {
        Seq::empty()
    }

    fn write(&self) -> (bytes: Vec<u8>) {
        Vec::new()
    }
}

} // verus!
