use brics::binding::{Binding, BindingLayout, BindingResource, BindingType};
use brics::flags::ShaderStage;
use brics::format::{TextureFormat, VertexFormat};
use brics::graphics::GraphicsManager;
use brics::handle::camera::CameraHandleLayout;
use brics::handle::object::Object;
use brics::render_pass::{
    AttachmentView, Color, ColorAttachment, ColorLoadOp, ColorOperations, DepthAttachment,
    DepthLoadOp, DepthOperations,
};
use brics::renderer::{EntityId, RenderCommand};
use brics::scene::{Scene, FRAGMENT_SHADER, N_OBJECTS, VERTEX_SHADER};
use brics::shapes::create_vertices;
use brics::state::{CullMode, FrontFace};
use brics::vertex::Vertex;

#[test]
fn the_scene_has_two_cubes_and_a_camera() {
    let mut graphics = GraphicsManager::new(1000, 800);
    let scene = Scene::new(&mut graphics);
    assert_eq!(N_OBJECTS, 2);
    assert_eq!(scene.objects.n_instances(), 2);
    assert_eq!(scene.objects.object(0), Some(Object::new()));
    assert_eq!(scene.objects.object(1), Some(Object::new()));
    assert_eq!(scene.objects.get_resource(), BindingResource::Buffer(0));
    assert_eq!(scene.objects.binding().buffer.size, 160);
    assert_eq!(scene.camera.get_resource(), BindingResource::Buffer(1));
    assert_eq!(scene.camera.binding.buffer.size, 64);
    let mut other = GraphicsManager::new(0, 0);
    let mut fresh = CameraHandleLayout::new(1, ShaderStage::vertex()).create_handle(&mut other);
    fresh.binding = scene.camera.binding;
    assert_eq!(scene.camera, fresh);
}

#[test]
fn the_scene_enters_what_it_creates() {
    let mut graphics = GraphicsManager::new(1000, 800);
    let earlier = CameraHandleLayout::new(0, ShaderStage::fragment()).create_handle(&mut graphics);
    assert_eq!(earlier.binding.id, 0);
    let scene = Scene::new(&mut graphics);
    assert_eq!(graphics.resources().len(), 3);
    assert_eq!(graphics.resources().entry_of(1), Some(scene.objects_layout.get_entry()));
    assert_eq!(graphics.resources().entry_of(2), Some(scene.camera_layout.get_entry()));
    assert_eq!(scene.objects_layout.get_entry().binding, 0);
    assert_eq!(scene.camera_layout.get_entry().binding, 1);
    let vertex = wgpu::ShaderStage::VERTEX.bits();
    assert_eq!(scene.objects_layout.get_entry().visibility.bits(), vertex);
    assert_eq!(scene.camera_layout.get_entry().visibility.bits(), vertex);
    assert_eq!(
        scene.camera_layout.get_entry().ty,
        BindingType::UniformBuffer { dynamic: false, min_binding_size: None }
    );
    assert_eq!(scene.objects.get_resource(), BindingResource::Buffer(1));
    assert_eq!(scene.camera.get_resource(), BindingResource::Buffer(2));
    assert_eq!(scene.depth.view.id, 0);
    assert_eq!(scene.depth.texture.size.width, 1000);
    assert_eq!(scene.depth.texture.size.height, 800);
    assert_eq!(scene.cube.geometry.id(), 0);
    let again = Scene::new(&mut graphics);
    assert_eq!(again.cube.geometry.id(), 1);
    assert_eq!(again.depth.view.id, 1);
    assert_eq!(again.objects.get_resource(), BindingResource::Buffer(3));
}

#[test]
fn the_scene_has_one_pass_with_one_pipeline() {
    let mut graphics = GraphicsManager::new(1000, 800);
    let scene = Scene::new(&mut graphics);
    assert_eq!(scene.renderer.pass_count(), 1);
    let pass = scene.renderer.get_render_pass(0).unwrap();
    assert_eq!(
        pass.color_attachment(),
        Some(ColorAttachment {
            view: AttachmentView::Dynamic,
            ops: ColorOperations {
                load: ColorLoadOp::Clear(Color {
                    r: 0.1f64.to_bits(),
                    g: 0.2f64.to_bits(),
                    b: 0.3f64.to_bits(),
                    a: 1.0f64.to_bits(),
                }),
                store: true,
            },
        })
    );
    assert_eq!(
        pass.depth_attachment(),
        Some(DepthAttachment {
            view: AttachmentView::Static(scene.depth.view),
            ops: DepthOperations { load: DepthLoadOp::Clear(1.0f32.to_bits()), store: false },
        })
    );
    assert_eq!(pass.pipeline_count(), 1);
    let pipeline = pass.get_pipeline(0).unwrap();
    assert_eq!(VERTEX_SHADER, "shaders/shader.vert");
    assert_eq!(FRAGMENT_SHADER, "shaders/shader.frag");
    assert_eq!(pipeline.vertex_shader(), "shaders/shader.vert");
    assert_eq!(pipeline.fragment_shader(), "shaders/shader.frag");
    assert_eq!(pipeline.formats(), &vec![VertexFormat::Float3, VertexFormat::Float3]);
    assert_eq!(
        pipeline.layouts(),
        &vec![scene.objects_layout.get_entry(), scene.camera_layout.get_entry()]
    );
    let color = pipeline.color_state().unwrap();
    assert_eq!(color.format, TextureFormat::Bgra8UnormSrgb);
    assert_eq!(color.write_mask, wgpu::ColorWrite::ALL.bits());
    let depth = pipeline.depth_state().unwrap();
    assert_eq!(depth.format, TextureFormat::Depth32Float);
    assert!(depth.depth_write_enabled);
    assert_eq!(format!("{:?}", depth.depth_compare), "Less");
    let raster = pipeline.raster_state().unwrap();
    assert_eq!(raster.front_face, FrontFace::Ccw);
    assert_eq!(raster.cull_mode, CullMode::Back);
    assert_eq!(raster.depth_bias, 0);
    let layout = pipeline.vertex_buffer().unwrap();
    assert_eq!(layout.stride, 24);
    assert_eq!(layout.attributes[0].offset, 0);
    assert_eq!(layout.attributes[1].offset, 12);
    assert_eq!(pipeline.entity_count(), 1);
    let entity = pipeline.entity(0).unwrap();
    assert_eq!(entity.n_instances(), 2);
    assert_eq!(
        entity.bindings(),
        &vec![BindingResource::Buffer(0), BindingResource::Buffer(1)]
    );
    assert_eq!(scene.entity, EntityId { pass: 0, pipeline: 0, entity: 0 });
}

#[test]
fn the_scene_holds_the_cube() {
    let mut graphics = GraphicsManager::new(1000, 800);
    let scene = Scene::new(&mut graphics);
    let (vertices, indices) = create_vertices();
    let mut vertex_bytes = Vec::new();
    for vertex in &vertices {
        vertex_bytes.extend_from_slice(&vertex.to_bytes());
    }
    let mut index_bytes = Vec::new();
    for index in &indices {
        index_bytes.extend_from_slice(&index.to_le_bytes());
    }
    assert_eq!(scene.cube.vertex_data, vertex_bytes);
    assert_eq!(scene.cube.vertex_data.len(), 576);
    assert_eq!(scene.cube.index_data, index_bytes);
    assert_eq!(scene.cube.geometry.index_count(), 36);
    assert_eq!(scene.cube.vertex_buffer.size, 576);
    assert_eq!(scene.cube.index_buffer.size, 72);
}

#[test]
fn a_frame_of_the_scene_draws_the_cube_twice_in_one_draw() {
    let mut graphics = GraphicsManager::new(1000, 800);
    let scene = Scene::new(&mut graphics);
    let pass = scene.renderer.get_render_pass(0).unwrap();
    assert_eq!(
        graphics.render(&scene.renderer),
        vec![
            RenderCommand::BeginPass {
                pass: 0,
                color: pass.color_attachment(),
                depth: pass.depth_attachment()
            },
            RenderCommand::SetPipeline { pass: 0, pipeline: 0 },
            RenderCommand::Draw {
                entity: EntityId { pass: 0, pipeline: 0, entity: 0 },
                geometry: 0,
                index_count: 36,
                instances: 2
            },
            RenderCommand::EndPass,
            RenderCommand::Submit,
        ]
    );
}
