use brics::format::{TextureFormat, VertexFormat};

fn pairs() -> Vec<(VertexFormat, wgpu::VertexFormat)> {
    vec![
        (VertexFormat::Uchar2, wgpu::VertexFormat::Uchar2),
        (VertexFormat::Uchar4, wgpu::VertexFormat::Uchar4),
        (VertexFormat::Char2, wgpu::VertexFormat::Char2),
        (VertexFormat::Char4, wgpu::VertexFormat::Char4),
        (VertexFormat::Uchar2Norm, wgpu::VertexFormat::Uchar2Norm),
        (VertexFormat::Uchar4Norm, wgpu::VertexFormat::Uchar4Norm),
        (VertexFormat::Char2Norm, wgpu::VertexFormat::Char2Norm),
        (VertexFormat::Char4Norm, wgpu::VertexFormat::Char4Norm),
        (VertexFormat::Ushort2, wgpu::VertexFormat::Ushort2),
        (VertexFormat::Ushort4, wgpu::VertexFormat::Ushort4),
        (VertexFormat::Short2, wgpu::VertexFormat::Short2),
        (VertexFormat::Short4, wgpu::VertexFormat::Short4),
        (VertexFormat::Ushort2Norm, wgpu::VertexFormat::Ushort2Norm),
        (VertexFormat::Ushort4Norm, wgpu::VertexFormat::Ushort4Norm),
        (VertexFormat::Short2Norm, wgpu::VertexFormat::Short2Norm),
        (VertexFormat::Short4Norm, wgpu::VertexFormat::Short4Norm),
        (VertexFormat::Half2, wgpu::VertexFormat::Half2),
        (VertexFormat::Half4, wgpu::VertexFormat::Half4),
        (VertexFormat::Float, wgpu::VertexFormat::Float),
        (VertexFormat::Float2, wgpu::VertexFormat::Float2),
        (VertexFormat::Float3, wgpu::VertexFormat::Float3),
        (VertexFormat::Float4, wgpu::VertexFormat::Float4),
        (VertexFormat::Uint, wgpu::VertexFormat::Uint),
        (VertexFormat::Uint2, wgpu::VertexFormat::Uint2),
        (VertexFormat::Uint3, wgpu::VertexFormat::Uint3),
        (VertexFormat::Uint4, wgpu::VertexFormat::Uint4),
        (VertexFormat::Int, wgpu::VertexFormat::Int),
        (VertexFormat::Int2, wgpu::VertexFormat::Int2),
        (VertexFormat::Int3, wgpu::VertexFormat::Int3),
        (VertexFormat::Int4, wgpu::VertexFormat::Int4),
    ]
}

#[test]
fn vertex_format_sizes_are_those_of_wgpu() {
    let pairs = pairs();
    assert_eq!(pairs.len(), 30);
    for (ours, theirs) in pairs {
        assert_eq!(ours.size(), theirs.size(), "{:?}", ours);
        assert_eq!(format!("{:?}", ours), format!("{:?}", theirs));
    }
}

#[test]
fn vertex_format_sizes() {
    assert_eq!(VertexFormat::Uchar2.size(), 2);
    assert_eq!(VertexFormat::Half2.size(), 4);
    assert_eq!(VertexFormat::Float.size(), 4);
    assert_eq!(VertexFormat::Short4.size(), 8);
    assert_eq!(VertexFormat::Float3.size(), 12);
    assert_eq!(VertexFormat::Int4.size(), 16);
}

#[test]
fn texture_formats_are_named_as_in_wgpu() {
    assert_eq!(
        format!("{:?}", TextureFormat::Bgra8UnormSrgb),
        format!("{:?}", wgpu::TextureFormat::Bgra8UnormSrgb)
    );
    assert_eq!(
        format!("{:?}", TextureFormat::Depth32Float),
        format!("{:?}", wgpu::TextureFormat::Depth32Float)
    );
    assert_eq!(
        format!("{:?}", TextureFormat::Bc7RgbaUnormSrgb),
        format!("{:?}", wgpu::TextureFormat::Bc7RgbaUnormSrgb)
    );
}
