use brics::flags::{BufferUsage, ShaderStage, TextureUsage};

#[test]
fn stage_masks_are_those_of_wgpu() {
    assert_eq!(ShaderStage::none().bits(), wgpu::ShaderStage::NONE.bits());
    assert_eq!(ShaderStage::vertex().bits(), 1);
    assert_eq!(ShaderStage::fragment().bits(), 2);
    assert_eq!(ShaderStage::compute().bits(), 4);
    assert_eq!(ShaderStage::vertex().bits(), wgpu::ShaderStage::VERTEX.bits());
    assert_eq!(ShaderStage::fragment().bits(), wgpu::ShaderStage::FRAGMENT.bits());
    assert_eq!(ShaderStage::compute().bits(), wgpu::ShaderStage::COMPUTE.bits());
}

#[test]
fn texture_usage_masks_are_those_of_wgpu() {
    assert_eq!(TextureUsage::sampled().bits(), 4);
    assert_eq!(TextureUsage::output_attachment().bits(), 16);
    assert_eq!(TextureUsage::sampled().bits(), wgpu::TextureUsage::SAMPLED.bits());
    assert_eq!(
        TextureUsage::output_attachment().bits(),
        wgpu::TextureUsage::OUTPUT_ATTACHMENT.bits()
    );
}

#[test]
fn buffer_usage_masks_are_those_of_wgpu() {
    assert_eq!(BufferUsage::copy_dst().bits(), 8);
    assert_eq!(BufferUsage::index().bits(), 16);
    assert_eq!(BufferUsage::vertex().bits(), 32);
    assert_eq!(BufferUsage::uniform().bits(), 64);
    assert_eq!(BufferUsage::copy_dst().bits(), wgpu::BufferUsage::COPY_DST.bits());
    assert_eq!(BufferUsage::index().bits(), wgpu::BufferUsage::INDEX.bits());
    assert_eq!(BufferUsage::vertex().bits(), wgpu::BufferUsage::VERTEX.bits());
    assert_eq!(BufferUsage::uniform().bits(), wgpu::BufferUsage::UNIFORM.bits());
}

#[test]
fn stage_union_and_contains() {
    let both = ShaderStage::vertex().union(ShaderStage::fragment());
    assert_eq!(both.bits(), 3);
    assert_eq!(
        both.bits(),
        (wgpu::ShaderStage::VERTEX | wgpu::ShaderStage::FRAGMENT).bits()
    );
    assert!(both.contains(ShaderStage::vertex()));
    assert!(both.contains(ShaderStage::fragment()));
    assert!(!both.contains(ShaderStage::compute()));
    assert!(both.contains(ShaderStage::none()));
    assert!(!ShaderStage::none().contains(ShaderStage::vertex()));
}

#[test]
fn masks_from_raw_bits_agree_with_wgpu() {
    for bits in 0u32..40 {
        assert_eq!(
            ShaderStage::from_bits(bits).map(|s| s.bits()),
            wgpu::ShaderStage::from_bits(bits).map(|s| s.bits())
        );
    }
    assert_eq!(ShaderStage::from_bits(8), None);
    assert_eq!(ShaderStage::from_bits(7).unwrap().bits(), 7);
}

#[test]
fn usage_union() {
    let usage = TextureUsage::output_attachment().union(TextureUsage::sampled());
    assert_eq!(usage.bits(), 20);
    let buffer = BufferUsage::uniform().union(BufferUsage::copy_dst());
    assert_eq!(buffer.bits(), 72);
}
