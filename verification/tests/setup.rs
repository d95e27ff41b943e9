use brics::format::TextureFormat;
use brics::setup::{
    device_descriptor, select_features, swap_chain_descriptor, DeviceDescriptor, PresentMode,
    OPTIONAL_FEATURES, REQUIRED_FEATURES, WINDOW_HEIGHT, WINDOW_TITLE, WINDOW_WIDTH,
};

#[test]
fn the_window_is_1000_by_800() {
    assert_eq!(WINDOW_TITLE, "rustgame");
    assert_eq!((WINDOW_WIDTH, WINDOW_HEIGHT), (1000, 800));
}

#[test]
fn no_features_are_asked_for() {
    assert_eq!(REQUIRED_FEATURES, wgpu::Features::empty().bits());
    assert_eq!(OPTIONAL_FEATURES, wgpu::Features::empty().bits());
    assert_eq!(
        device_descriptor(0),
        Ok(DeviceDescriptor { features: 0, shader_validation: true })
    );
    assert_eq!(
        device_descriptor(wgpu::Features::all().bits()),
        Ok(DeviceDescriptor { features: 0, shader_validation: true })
    );
}

#[test]
fn features_are_selected_as_wgpu_would() {
    let adapter = wgpu::Features::DEPTH_CLAMPING | wgpu::Features::PUSH_CONSTANTS;
    let optional = wgpu::Features::DEPTH_CLAMPING | wgpu::Features::TEXTURE_COMPRESSION_BC;
    let required = wgpu::Features::PUSH_CONSTANTS;
    assert!(adapter.contains(required));
    assert_eq!(
        select_features(adapter.bits(), optional.bits(), required.bits()),
        Ok(((optional & adapter) | required).bits())
    );
    assert_eq!(select_features(0b0110, 0b0011, 0b0100), Ok(0b0110));
    assert_eq!(select_features(0b0110, 0, 0), Ok(0));
    assert_eq!(select_features(u64::MAX, 0b1, 0b10), Ok(0b11));
}

#[test]
fn missing_features_are_reported() {
    let adapter = wgpu::Features::DEPTH_CLAMPING;
    let required = wgpu::Features::DEPTH_CLAMPING | wgpu::Features::PUSH_CONSTANTS;
    assert!(!adapter.contains(required));
    assert_eq!(
        select_features(adapter.bits(), 0, required.bits()),
        Err((required - adapter).bits())
    );
    assert_eq!(select_features(0b0110, 0b0011, 0b1001), Err(0b1001));
    assert_eq!(select_features(0, u64::MAX, 1 << 63), Err(1 << 63));
}

#[test]
fn the_swap_chain_has_the_size_of_the_surface() {
    let descriptor = swap_chain_descriptor(1000, 800);
    assert_eq!(descriptor.usage.bits(), wgpu::TextureUsage::OUTPUT_ATTACHMENT.bits());
    assert_eq!(descriptor.format, TextureFormat::Bgra8UnormSrgb);
    assert_eq!(descriptor.width, 1000);
    assert_eq!(descriptor.height, 800);
    assert_eq!(descriptor.present_mode, PresentMode::Mailbox);
}
