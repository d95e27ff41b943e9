use brics::binding::sampler::CompareFunction;
use brics::binding::texture::{Extent3d, TextureDimension};
use brics::binding::BindingLayout;
use brics::flags::ShaderStage;
use brics::format::{TextureFormat, VertexFormat};
use brics::graphics::{GeometryError, GraphicsManager};
use brics::handle::camera::CameraHandleLayout;
use brics::handle::light::LightHandleLayout;
use brics::handle::object::InstancedObjectHandleLayout;
use brics::pipeline::{BindingEntries, BindingLayoutEntries, EntityError, PipelineError};
use brics::render_pass::{
    AttachmentView, Color, ColorLoadOp, ColorOperations, DepthLoadOp, DepthOperations, RenderPass,
};
use brics::renderer::{EntityId, RenderCommand, Renderer};
use brics::setup::PresentMode;
use brics::shapes::create_vertices;
use brics::state::{
    BlendDescriptor, ColorStateDescriptor, CullMode, DepthStencilStateDescriptor,
    RasterizationStateDescriptor, COLOR_WRITE_ALL,
};
use brics::vertex::{Vertex, VertexBasic};

struct Flat {
    x: f32,
    y: f32,
}

impl Vertex for Flat {
    fn get_attribute_formats() -> Vec<VertexFormat> {
        vec![VertexFormat::Float2]
    }

    fn to_bytes(&self) -> Vec<u8> {
        let mut bytes = self.x.to_le_bytes().to_vec();
        bytes.extend_from_slice(&self.y.to_le_bytes());
        bytes
    }
}

struct Odd {
    short: bool,
}

impl Vertex for Odd {
    fn get_attribute_formats() -> Vec<VertexFormat> {
        vec![VertexFormat::Float2]
    }

    fn to_bytes(&self) -> Vec<u8> {
        if self.short {
            vec![0; 7]
        } else {
            vec![0; 8]
        }
    }
}

#[test]
fn the_manager_knows_the_window_and_the_swap_chain() {
    let graphics = GraphicsManager::new(1000, 800);
    assert_eq!(graphics.get_window_size(), (1000, 800));
    assert_eq!(GraphicsManager::get_swapchain_color_format(), TextureFormat::Bgra8UnormSrgb);
    let descriptor = graphics.swap_chain_descriptor();
    assert_eq!(descriptor.width, 1000);
    assert_eq!(descriptor.height, 800);
    assert_eq!(descriptor.format, TextureFormat::Bgra8UnormSrgb);
    assert_eq!(descriptor.usage.bits(), 16);
    assert_eq!(descriptor.present_mode, PresentMode::Mailbox);
    assert_eq!(graphics.resources().len(), 0);
}

#[test]
fn the_depth_texture_has_the_size_of_the_window() {
    let mut graphics = GraphicsManager::new(1000, 800);
    let depth = graphics.create_depth_texture_view();
    assert_eq!(depth.texture.size, Extent3d { width: 1000, height: 800, depth: 1 });
    assert_eq!(depth.texture.mip_level_count, 1);
    assert_eq!(depth.texture.sample_count, 1);
    assert_eq!(depth.texture.dimension, TextureDimension::D2);
    assert_eq!(depth.texture.format, TextureFormat::Depth32Float);
    assert_eq!(depth.texture.usage.bits(), wgpu::TextureUsage::OUTPUT_ATTACHMENT.bits());
    assert_eq!(depth.view.id, 0);
    assert_eq!(depth.view.format, TextureFormat::Depth32Float);
    let second = graphics.create_depth_texture_view();
    assert_eq!(second.view.id, 1);
}

#[test]
fn the_cube_becomes_a_geometry() {
    let mut graphics = GraphicsManager::new(1000, 800);
    let (vertices, indices) = create_vertices();
    let data = graphics.create_geometry(&vertices, &indices).unwrap();
    assert_eq!(data.geometry.id(), 0);
    assert_eq!(data.geometry.index_count(), 36);
    assert_eq!(data.geometry.formats(), &VertexBasic::get_attribute_formats());
    assert_eq!(data.vertex_data.len(), 24 * 24);
    assert_eq!(data.vertex_buffer.size, 576);
    assert_eq!(data.vertex_buffer.usage.bits(), wgpu::BufferUsage::VERTEX.bits());
    assert!(!data.vertex_buffer.mapped_at_creation);
    assert_eq!(data.index_data.len(), 72);
    assert_eq!(data.index_buffer.size, 72);
    assert_eq!(data.index_buffer.usage.bits(), wgpu::BufferUsage::INDEX.bits());
    assert_eq!(&data.vertex_data[..12], &[0, 0, 0x80, 0xbf, 0, 0, 0x80, 0xbf, 0, 0, 0x80, 0x3f]);
    assert_eq!(&data.index_data[..6], &[0, 0, 1, 0, 3, 0]);
    let mut expected = Vec::new();
    for vertex in &vertices {
        expected.extend_from_slice(&vertex.to_bytes());
    }
    assert_eq!(data.vertex_data, expected);
    let again = graphics.create_geometry(&vertices, &indices).unwrap();
    assert_eq!(again.geometry.id(), 1);
}

#[test]
fn vertices_of_any_type_become_a_geometry() {
    let mut graphics = GraphicsManager::new(1000, 800);
    let vertices = vec![Flat { x: 0.0, y: 1.0 }, Flat { x: 2.0, y: 3.0 }, Flat { x: 4.0, y: 5.0 }];
    let data = graphics.create_geometry(&vertices, &vec![0, 1, 2]).unwrap();
    assert_eq!(data.geometry.formats(), &vec![VertexFormat::Float2]);
    assert_eq!(data.geometry.index_count(), 3);
    let floats: Vec<f32> = data
        .vertex_data
        .chunks(4)
        .map(|b| f32::from_le_bytes([b[0], b[1], b[2], b[3]]))
        .collect();
    assert_eq!(floats, vec![0.0, 1.0, 2.0, 3.0, 4.0, 5.0]);
    assert_eq!(data.index_data, vec![0, 0, 1, 0, 2, 0]);
}

#[test]
fn a_vertex_of_the_wrong_size_is_refused() {
    let mut graphics = GraphicsManager::new(1000, 800);
    let vertices = vec![Odd { short: false }, Odd { short: false }, Odd { short: true }];
    assert_eq!(
        graphics.create_geometry(&vertices, &vec![0, 1, 2]).err(),
        Some(GeometryError::VertexSize { vertex: 2 })
    );
    let result = graphics.build_geometry(
        vec![VertexFormat::Float3],
        &vec![vec![0; 12], vec![0; 13], vec![0; 11]],
        &vec![0, 1, 2],
    );
    assert_eq!(result.err(), Some(GeometryError::VertexSize { vertex: 1 }));
    let next = graphics.create_geometry(&vec![Odd { short: false }], &vec![0]).unwrap();
    assert_eq!(next.geometry.id(), 0);
}

#[test]
fn an_empty_geometry_is_accepted() {
    let mut graphics = GraphicsManager::new(1000, 800);
    let data = graphics.build_geometry(Vec::new(), &Vec::new(), &Vec::new()).unwrap();
    assert!(data.vertex_data.is_empty());
    assert!(data.index_data.is_empty());
    assert_eq!(data.geometry.index_count(), 0);
}

fn color_state() -> ColorStateDescriptor {
    ColorStateDescriptor {
        format: GraphicsManager::get_swapchain_color_format(),
        color_blend: BlendDescriptor::replace(),
        alpha_blend: BlendDescriptor::replace(),
        write_mask: COLOR_WRITE_ALL,
    }
}

fn depth_state() -> DepthStencilStateDescriptor {
    DepthStencilStateDescriptor {
        format: TextureFormat::Depth32Float,
        depth_write_enabled: true,
        depth_compare: CompareFunction::Less,
    }
}

#[test]
fn a_pipeline_takes_the_formats_of_its_vertex_type() {
    let graphics = GraphicsManager::new(1000, 800);
    let camera = CameraHandleLayout::new(0, ShaderStage::vertex());
    let pipeline = graphics
        .create_pipeline::<VertexBasic>(
            "examples/basic/shaders/shader.vert",
            "examples/basic/shaders/shader.frag",
            BindingLayoutEntries::new().add(&camera),
            Some(color_state()),
            Some(depth_state()),
            Some(RasterizationStateDescriptor::culling(CullMode::Back)),
        )
        .unwrap();
    assert_eq!(pipeline.formats(), &vec![VertexFormat::Float3, VertexFormat::Float3]);
    assert_eq!(pipeline.vertex_shader(), "examples/basic/shaders/shader.vert");
    assert_eq!(pipeline.layouts(), &vec![camera.get_entry()]);
    let flat = graphics
        .create_pipeline::<Flat>("a", "b", BindingLayoutEntries::new(), None, None, None)
        .unwrap();
    assert_eq!(flat.formats(), &vec![VertexFormat::Float2]);
    let misplaced = graphics.create_pipeline::<Flat>(
        "a",
        "b",
        BindingLayoutEntries::new().add(&CameraHandleLayout::new(1, ShaderStage::vertex())),
        None,
        None,
        None,
    );
    assert_eq!(misplaced.err(), Some(PipelineError::BindingOrder { position: 0 }));
}

#[test]
fn a_scene_is_set_up_and_drawn() {
    let mut graphics = GraphicsManager::new(1000, 800);
    let camera_layout = CameraHandleLayout::new(0, ShaderStage::vertex());
    let object_layout = InstancedObjectHandleLayout::new(1, ShaderStage::vertex(), 2);
    let light_layout = LightHandleLayout::new(2, ShaderStage::fragment());
    let camera = camera_layout.create_handle(&mut graphics);
    let objects = object_layout.create_handle(&mut graphics);
    let light = light_layout.create_handle(&mut graphics);

    let pipeline = graphics
        .create_pipeline::<VertexBasic>(
            "shader.vert",
            "shader.frag",
            BindingLayoutEntries::new().add(&camera_layout).add(&object_layout).add(&light_layout),
            Some(color_state()),
            Some(depth_state()),
            Some(RasterizationStateDescriptor::culling(CullMode::Back)),
        )
        .unwrap();
    let depth = graphics.create_depth_texture_view();
    let mut pass = RenderPass::new();
    let color_ops = ColorOperations {
        load: ColorLoadOp::Clear(Color {
            r: 0.1f64.to_bits(),
            g: 0.2f64.to_bits(),
            b: 0.3f64.to_bits(),
            a: 1.0f64.to_bits(),
        }),
        store: true,
    };
    let depth_ops = DepthOperations { load: DepthLoadOp::Clear(1.0f32.to_bits()), store: false };
    pass.set_color_attachment(AttachmentView::Dynamic, color_ops);
    pass.set_depth_attachment(AttachmentView::Static(depth.view), depth_ops);
    let pipeline_index = pass.add_pipeline(pipeline);
    let mut renderer = Renderer::new();
    let pass_index = renderer.add_render_pass(pass).unwrap();

    let (vertices, indices) = create_vertices();
    let cube = graphics.create_geometry(&vertices, &indices).unwrap();

    let wrong_order = BindingEntries::new().add(&camera).add(&light).add(&objects);
    assert_eq!(
        graphics.add_instanced_pipeline_entity(
            &mut renderer,
            pass_index,
            pipeline_index,
            &cube.geometry,
            wrong_order,
            2
        ),
        Err(EntityError::BindingMismatch { position: 1 })
    );
    let bindings = BindingEntries::new().add(&camera).add(&objects).add(&light);
    let id = graphics
        .add_instanced_pipeline_entity(
            &mut renderer,
            pass_index,
            pipeline_index,
            &cube.geometry,
            bindings,
            2,
        )
        .unwrap();
    assert_eq!(id, EntityId { pass: 0, pipeline: 0, entity: 0 });
    let bindings = BindingEntries::new().add(&camera).add(&objects).add(&light);
    let single = graphics
        .add_pipeline_entity(&mut renderer, pass_index, pipeline_index, &cube.geometry, bindings)
        .unwrap();
    assert_eq!(single, EntityId { pass: 0, pipeline: 0, entity: 1 });

    let commands = graphics.render(&renderer);
    assert_eq!(commands.len(), 6);
    assert_eq!(
        commands[2],
        RenderCommand::Draw { entity: id, geometry: 0, index_count: 36, instances: 2 }
    );
    assert_eq!(
        commands[3],
        RenderCommand::Draw { entity: single, geometry: 0, index_count: 36, instances: 1 }
    );
    assert_eq!(commands[5], RenderCommand::Submit);
    assert_eq!(graphics.render(&renderer), commands);
}
