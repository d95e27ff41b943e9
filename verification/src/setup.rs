//! What the renderer asks of the window, the adapter and the swap chain when
//! it starts.

use crate::flags::TextureUsage;
use crate::format::TextureFormat;
use crate::render_pass::swapchain_color_format;
use vstd::prelude::*;

verus! {

/// Title of the window.
pub const WINDOW_TITLE: &'static str = "rustgame";

/// Width of the window when it opens, in physical pixels.
pub const WINDOW_WIDTH: u32 = 1000;

/// Height of the window when it opens, in physical pixels.
pub const WINDOW_HEIGHT: u32 = 800;

/// Mask of the device features without which the renderer cannot run.
pub const REQUIRED_FEATURES: u64 = 0;

/// Mask of the device features the renderer turns on where the adapter has
/// them.
pub const OPTIONAL_FEATURES: u64 = 0;

/// The features among `required` that an adapter with the features
/// `adapter` lacks.
pub open spec fn missing_features(adapter: u64, required: u64) -> u64 {
    required & !adapter
}

/// The features to ask of the device: the required ones, and the optional
/// ones that the adapter has.
pub open spec fn selected_features(adapter: u64, optional: u64, required: u64) -> u64 {
    (optional & adapter) | required
}

/// Chooses the features to ask of a device on an adapter with the features
/// `adapter`. Fails with the mask of the missing features if the adapter
/// lacks a required one.
pub fn select_features(adapter: u64, optional: u64, required: u64) -> (result: Result<u64, u64>)
    ensures
        match result {
            Ok(features) => missing_features(adapter, required) == 0 && features
                == selected_features(adapter, optional, required),
            Err(missing) => missing != 0 && missing == missing_features(adapter, required),
        },
{
    let missing = required & !adapter;
    if missing != 0 {
        Err(missing)
    } else {
        Ok((optional & adapter) | required)
    }
}

/// An adapter has every required feature exactly if no required feature is
/// missing; the features selected then contain the required ones, and
/// nothing that is neither required nor on the adapter.
pub proof fn lemma_selected_features(adapter: u64, optional: u64, required: u64)
    ensures
        missing_features(adapter, required) == 0 <==> adapter & required == required,
        selected_features(adapter, optional, required) & required == required,
        selected_features(adapter, optional, required) & !(adapter | required) == 0,
{
    assert((required & !adapter == 0) <==> (adapter & required == required)) by (bit_vector);
    assert(((optional & adapter) | required) & required == required) by (bit_vector);
    assert(((optional & adapter) | required) & !(adapter | required) == 0) by (bit_vector);
}

/// What is asked of the adapter when the device is requested. Limits are
/// left at their defaults.
#[derive(Clone, Copy, Debug, PartialEq, Eq, Structural)]
pub struct DeviceDescriptor {
    /// Mask of the features to turn on.
    pub features: u64,
    pub shader_validation: bool,
}

/// The device to request on an adapter with the features `adapter`:
/// validating shaders, with the features the renderer selects. Fails with
/// the mask of the missing features if the adapter lacks a required one.
pub fn device_descriptor(adapter: u64) -> (result: Result<DeviceDescriptor, u64>)
    ensures
        match result {
            Ok(descriptor) => missing_features(adapter, REQUIRED_FEATURES) == 0 && descriptor == (
            DeviceDescriptor {
                features: selected_features(adapter, OPTIONAL_FEATURES, REQUIRED_FEATURES),
                shader_validation: true,
            }),
            Err(missing) => missing != 0 && missing == missing_features(
                adapter,
                REQUIRED_FEATURES,
            ),
        },
{
    match select_features(adapter, OPTIONAL_FEATURES, REQUIRED_FEATURES) {
        Ok(features) => Ok(DeviceDescriptor { features, shader_validation: true }),
        Err(missing) => Err(missing),
    }
}

/// When a frame is shown.
#[derive(Clone, Copy, Debug, PartialEq, Eq, Structural)]
pub enum PresentMode {
    Immediate,
    Mailbox,
    Fifo,
}

/// What the device needs to know to create a swap chain.
#[derive(Clone, Copy, Debug, PartialEq, Eq, Structural)]
pub struct SwapChainDescriptor {
    pub usage: TextureUsage,
    pub format: TextureFormat,
    pub width: u32,
    pub height: u32,
    pub present_mode: PresentMode,
}

/// The swap chain for a surface of the given size: its frames are render
/// targets in the swap chain's color format, shown without tearing as soon
/// as they are ready.
pub fn swap_chain_descriptor(width: u32, height: u32) -> (descriptor: SwapChainDescriptor)
    ensures
        descriptor.usage@ == 16,
        descriptor.format == swapchain_color_format(),
        descriptor.width == width,
        descriptor.height == height,
        descriptor.present_mode == PresentMode::Mailbox,
{
    SwapChainDescriptor {
        usage: TextureUsage::output_attachment(),
        format: TextureFormat::Bgra8UnormSrgb,
        width,
        height,
        present_mode: PresentMode::Mailbox,
    }
}

} // verus!
