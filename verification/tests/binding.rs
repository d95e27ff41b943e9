use brics::binding::buffer::BufferBindingLayout;
use brics::binding::sampler::{
    AddressMode, CompareFunction, FilterMode, SamplerAddressMode, SamplerBindingLayout,
    SamplerFilterMode,
};
use brics::binding::texture::{
    Extent3d, TextureAspect, TextureBindingLayout, TextureDimension,
};
use brics::binding::{
    Binding, BindingLayout, BindingResource, BindingType, Resources, TextureComponentType,
    TextureViewDimension,
};
use brics::flags::ShaderStage;
use brics::format::TextureFormat;

fn shadow_map() -> TextureBindingLayout {
    TextureBindingLayout::new_sampled_output(
        4,
        ShaderStage::fragment(),
        Extent3d { width: 2048, height: 2048, depth: 1 },
        TextureFormat::Depth32Float,
    )
}

fn clamp() -> SamplerAddressMode {
    SamplerAddressMode {
        u: AddressMode::ClampToEdge,
        v: AddressMode::ClampToEdge,
        w: AddressMode::ClampToEdge,
    }
}

fn linear() -> SamplerFilterMode {
    SamplerFilterMode {
        mag: FilterMode::Linear,
        min: FilterMode::Linear,
        mipmap: FilterMode::Nearest,
    }
}

#[test]
fn sampled_output_keeps_its_arguments() {
    let layout = shadow_map();
    assert_eq!(layout.binding, 4);
    assert_eq!(layout.visibility, ShaderStage::fragment());
    assert_eq!(layout.size, Extent3d { width: 2048, height: 2048, depth: 1 });
    assert_eq!(layout.format, TextureFormat::Depth32Float);
}

#[test]
fn sampled_output_usage_is_output_attachment_and_sampled() {
    let layout = shadow_map();
    assert_eq!(layout.usage.bits(), 20);
    assert_eq!(
        layout.usage.bits(),
        (wgpu::TextureUsage::OUTPUT_ATTACHMENT | wgpu::TextureUsage::SAMPLED).bits()
    );
}

#[test]
fn texture_entry_is_a_float_2d_array_texture() {
    let entry = shadow_map().get_entry();
    assert_eq!(entry.binding, 4);
    assert_eq!(entry.visibility.bits(), wgpu::ShaderStage::FRAGMENT.bits());
    assert_eq!(
        entry.ty,
        BindingType::SampledTexture {
            dimension: TextureViewDimension::D2Array,
            component_type: TextureComponentType::Float,
            multisampled: false,
        }
    );
    assert_eq!(entry.count, None);
}

#[test]
fn texture_binding_describes_texture_and_view() {
    let mut resources = Resources::new();
    let layout = shadow_map();
    let binding = layout.create_binding(&mut resources);
    assert_eq!(binding.id, 0);
    assert_eq!(binding.texture.size, Extent3d { width: 2048, height: 2048, depth: 1 });
    assert_eq!(binding.texture.mip_level_count, 1);
    assert_eq!(binding.texture.sample_count, 1);
    assert_eq!(binding.texture.dimension, TextureDimension::D2);
    assert_eq!(binding.texture.format, TextureFormat::Depth32Float);
    assert_eq!(binding.texture.usage.bits(), 20);
    assert_eq!(binding.view.format, None);
    assert_eq!(binding.view.dimension, Some(TextureViewDimension::D2));
    assert_eq!(binding.view.aspect, TextureAspect::All);
    assert_eq!(binding.view.base_mip_level, 0);
    assert_eq!(binding.view.level_count, None);
    assert_eq!(binding.view.base_array_layer, 0);
    assert_eq!(binding.view.array_layer_count, None);
    assert_eq!(binding.get_resource(), BindingResource::TextureView(0));
    assert_eq!(resources.len(), 1);
    assert_eq!(resources.entry_of(0), Some(layout.get_entry()));
    assert_eq!(resources.entry_of(1), None);
}

#[test]
fn resources_are_numbered_in_the_order_of_creation() {
    let mut resources = Resources::new();
    assert_eq!(resources.len(), 0);
    let texture = shadow_map();
    let sampler = SamplerBindingLayout::new(
        5,
        ShaderStage::fragment(),
        clamp(),
        linear(),
        Some(CompareFunction::LessEqual),
    );
    let buffer = BufferBindingLayout::new_uniform(0, ShaderStage::vertex(), 64);
    let a = texture.create_binding(&mut resources);
    let b = sampler.create_binding(&mut resources);
    let c = buffer.create_binding(&mut resources);
    let d = buffer.create_binding(&mut resources);
    assert_eq!((a.id, b.id, c.id, d.id), (0, 1, 2, 3));
    assert_eq!(resources.len(), 4);
    assert_eq!(resources.entry_of(0), Some(texture.get_entry()));
    assert_eq!(resources.entry_of(1), Some(sampler.get_entry()));
    assert_eq!(resources.entry_of(2), Some(buffer.get_entry()));
    assert_eq!(resources.entry_of(3), Some(buffer.get_entry()));
    assert_eq!(resources.entry_of(4), None);
    assert_eq!(b.get_resource(), BindingResource::Sampler(1));
    assert_eq!(c.get_resource(), BindingResource::Buffer(2));
    assert_eq!(c.get_resource().id(), 2);
}

#[test]
fn sampler_entry_compares_exactly_with_a_compare_function() {
    let comparing = SamplerBindingLayout::new(
        5,
        ShaderStage::fragment(),
        clamp(),
        linear(),
        Some(CompareFunction::LessEqual),
    );
    let filtering = SamplerBindingLayout::new(1, ShaderStage::fragment(), clamp(), linear(), None);
    assert_eq!(comparing.get_entry().ty, BindingType::Sampler { comparison: true });
    assert_eq!(filtering.get_entry().ty, BindingType::Sampler { comparison: false });
    assert_eq!(comparing.get_entry().binding, 5);
    assert_eq!(filtering.get_entry().binding, 1);
    assert_eq!(comparing.get_entry().count, None);
}

#[test]
fn sampler_binding_describes_the_sampler() {
    let mut resources = Resources::new();
    let layout = SamplerBindingLayout::new(
        5,
        ShaderStage::fragment(),
        SamplerAddressMode {
            u: AddressMode::ClampToEdge,
            v: AddressMode::Repeat,
            w: AddressMode::MirrorRepeat,
        },
        linear(),
        Some(CompareFunction::LessEqual),
    );
    let binding = layout.create_binding(&mut resources);
    assert_eq!(binding.sampler.address_mode_u, AddressMode::ClampToEdge);
    assert_eq!(binding.sampler.address_mode_v, AddressMode::Repeat);
    assert_eq!(binding.sampler.address_mode_w, AddressMode::MirrorRepeat);
    assert_eq!(binding.sampler.mag_filter, FilterMode::Linear);
    assert_eq!(binding.sampler.min_filter, FilterMode::Linear);
    assert_eq!(binding.sampler.mipmap_filter, FilterMode::Nearest);
    assert_eq!(binding.sampler.compare, Some(CompareFunction::LessEqual));
}

#[test]
fn uniform_buffer_binding_can_be_written_to() {
    let mut resources = Resources::new();
    let layout = BufferBindingLayout::new_uniform(3, ShaderStage::vertex(), 80);
    let binding = layout.create_binding(&mut resources);
    assert_eq!(binding.buffer.size, 80);
    assert_eq!(
        binding.buffer.usage.bits(),
        (wgpu::BufferUsage::UNIFORM | wgpu::BufferUsage::COPY_DST).bits()
    );
    assert!(!binding.buffer.mapped_at_creation);
    assert_eq!(
        layout.get_entry().ty,
        BindingType::UniformBuffer { dynamic: false, min_binding_size: None }
    );
    assert_eq!(layout.get_entry().binding, 3);
    assert_eq!(layout.get_entry().visibility, ShaderStage::vertex());
}
