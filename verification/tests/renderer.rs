use brics::binding::buffer::BufferBindingLayout;
use brics::binding::sampler::CompareFunction;
use brics::binding::Resources;
use brics::flags::ShaderStage;
use brics::format::{TextureFormat, VertexFormat};
use brics::pipeline::{BindingEntries, BindingLayoutEntries, EntityError, Geometry, Pipeline};
use brics::render_pass::{
    AttachmentView, Color, ColorAttachment, ColorLoadOp, ColorOperations, DepthAttachment,
    DepthLoadOp, DepthOperations, PassError, RenderPass, TextureView,
};
use brics::renderer::{EntityId, RenderCommand, Renderer};
use brics::state::{
    BlendDescriptor, ColorStateDescriptor, DepthStencilStateDescriptor, COLOR_WRITE_ALL,
};

fn formats() -> Vec<VertexFormat> {
    vec![VertexFormat::Float3, VertexFormat::Float3]
}

fn pipeline(name: &str, color: bool) -> Pipeline {
    let camera = BufferBindingLayout::new_uniform(0, ShaderStage::vertex(), 64);
    Pipeline::new(
        name,
        "frag",
        formats(),
        BindingLayoutEntries::new().add(&camera),
        if color {
            Some(ColorStateDescriptor {
                format: TextureFormat::Bgra8UnormSrgb,
                color_blend: BlendDescriptor::replace(),
                alpha_blend: BlendDescriptor::replace(),
                write_mask: COLOR_WRITE_ALL,
            })
        } else {
            None
        },
        Some(DepthStencilStateDescriptor {
            format: TextureFormat::Depth32Float,
            depth_write_enabled: true,
            depth_compare: CompareFunction::LessEqual,
        }),
        None,
    )
    .unwrap()
}

fn depth(id: usize, store: bool) -> DepthAttachment {
    DepthAttachment {
        view: AttachmentView::Static(TextureView { id, format: TextureFormat::Depth32Float }),
        ops: DepthOperations { load: DepthLoadOp::Clear(1.0f32.to_bits()), store },
    }
}

fn color() -> ColorAttachment {
    ColorAttachment {
        view: AttachmentView::Dynamic,
        ops: ColorOperations {
            load: ColorLoadOp::Clear(Color {
                r: 0.1f64.to_bits(),
                g: 0.2f64.to_bits(),
                b: 0.3f64.to_bits(),
                a: 1.0f64.to_bits(),
            }),
            store: true,
        },
    }
}

fn shadow_pass() -> RenderPass {
    let mut pass = RenderPass::new();
    pass.set_depth_attachment(depth(0, true).view, depth(0, true).ops);
    pass.add_pipeline(pipeline("shadow", false));
    pass
}

fn material_pass() -> RenderPass {
    let mut pass = RenderPass::new();
    pass.set_color_attachment(color().view, color().ops);
    pass.set_depth_attachment(depth(1, false).view, depth(1, false).ops);
    pass.add_pipeline(pipeline("material", true));
    pass.add_pipeline(pipeline("overlay", true));
    pass
}

#[test]
fn an_empty_renderer_only_submits() {
    let renderer = Renderer::new();
    assert_eq!(renderer.pass_count(), 0);
    assert!(renderer.get_render_pass(0).is_none());
    assert_eq!(renderer.commands(), vec![RenderCommand::Submit]);
}

#[test]
fn pass_indices_count_up_from_zero() {
    let mut renderer = Renderer::new();
    assert_eq!(renderer.add_render_pass(shadow_pass()), Ok(0));
    assert_eq!(renderer.add_render_pass(material_pass()), Ok(1));
    assert_eq!(renderer.add_render_pass(RenderPass::new()), Ok(2));
    assert_eq!(renderer.pass_count(), 3);
    assert_eq!(renderer.get_render_pass(0).unwrap().pipeline_count(), 1);
    assert_eq!(renderer.get_render_pass(1).unwrap().pipeline_count(), 2);
    assert_eq!(
        renderer.get_render_pass(1).unwrap().get_pipeline(1).unwrap().vertex_shader(),
        "overlay"
    );
    assert!(renderer.get_render_pass(3).is_none());
}

#[test]
fn a_pass_whose_formats_disagree_is_refused() {
    let mut renderer = Renderer::new();
    let mut pass = RenderPass::new();
    pass.set_depth_attachment(depth(0, true).view, depth(0, true).ops);
    pass.add_pipeline(pipeline("shadow", false));
    pass.add_pipeline(pipeline("material", true));
    assert_eq!(renderer.add_render_pass(pass), Err(PassError::ColorFormat { pipeline: 1 }));
    assert_eq!(renderer.pass_count(), 0);
    let mut pass = RenderPass::new();
    pass.set_color_attachment(color().view, color().ops);
    pass.add_pipeline(pipeline("material", true));
    assert_eq!(renderer.add_render_pass(pass), Err(PassError::DepthFormat { pipeline: 0 }));
    assert_eq!(renderer.pass_count(), 0);
}

#[test]
fn a_frame_draws_passes_pipelines_and_entities_in_order() {
    let mut resources = Resources::new();
    let layout = BufferBindingLayout::new_uniform(0, ShaderStage::vertex(), 64);
    let light_camera = layout.create_binding(&mut resources);
    let camera = layout.create_binding(&mut resources);
    let mut renderer = Renderer::new();
    let shadow = renderer.add_render_pass(shadow_pass()).unwrap();
    let material = renderer.add_render_pass(material_pass()).unwrap();
    let cube = Geometry::new(0, formats(), 36);
    let plane = Geometry::new(1, formats(), 6);

    let a = renderer
        .add_pipeline_entity(material, 0, &resources, &cube, BindingEntries::new().add(&camera), 2)
        .unwrap();
    let b = renderer
        .add_pipeline_entity(
            shadow,
            0,
            &resources,
            &cube,
            BindingEntries::new().add(&light_camera),
            2,
        )
        .unwrap();
    let c = renderer
        .add_pipeline_entity(material, 0, &resources, &plane, BindingEntries::new().add(&camera), 1)
        .unwrap();
    let d = renderer
        .add_pipeline_entity(material, 1, &resources, &plane, BindingEntries::new().add(&camera), 7)
        .unwrap();
    assert_eq!(a, EntityId { pass: 1, pipeline: 0, entity: 0 });
    assert_eq!(b, EntityId { pass: 0, pipeline: 0, entity: 0 });
    assert_eq!(c, EntityId { pass: 1, pipeline: 0, entity: 1 });
    assert_eq!(d, EntityId { pass: 1, pipeline: 1, entity: 0 });

    let expected = vec![
        RenderCommand::BeginPass { pass: 0, color: None, depth: Some(depth(0, true)) },
        RenderCommand::SetPipeline { pass: 0, pipeline: 0 },
        RenderCommand::Draw { entity: b, geometry: 0, index_count: 36, instances: 2 },
        RenderCommand::EndPass,
        RenderCommand::BeginPass { pass: 1, color: Some(color()), depth: Some(depth(1, false)) },
        RenderCommand::SetPipeline { pass: 1, pipeline: 0 },
        RenderCommand::Draw { entity: a, geometry: 0, index_count: 36, instances: 2 },
        RenderCommand::Draw { entity: c, geometry: 1, index_count: 6, instances: 1 },
        RenderCommand::SetPipeline { pass: 1, pipeline: 1 },
        RenderCommand::Draw { entity: d, geometry: 1, index_count: 6, instances: 7 },
        RenderCommand::EndPass,
        RenderCommand::Submit,
    ];
    assert_eq!(renderer.commands(), expected);
    assert_eq!(renderer.commands(), expected);
}

#[test]
fn every_entity_is_drawn_once_with_its_instances() {
    let mut resources = Resources::new();
    let layout = BufferBindingLayout::new_uniform(0, ShaderStage::vertex(), 64);
    let camera = layout.create_binding(&mut resources);
    let mut renderer = Renderer::new();
    renderer.add_render_pass(shadow_pass()).unwrap();
    renderer.add_render_pass(material_pass()).unwrap();
    let cube = Geometry::new(0, formats(), 36);
    let mut registered = Vec::new();
    for (pass, pipeline, instances) in
        [(0usize, 0usize, 1u32), (1, 0, 4), (1, 1, 2), (1, 0, 1), (0, 0, 9), (1, 1, 0)]
    {
        let id = renderer
            .add_pipeline_entity(
                pass,
                pipeline,
                &resources,
                &cube,
                BindingEntries::new().add(&camera),
                instances,
            )
            .unwrap();
        registered.push((id, instances));
    }
    let mut drawn = Vec::new();
    for command in renderer.commands() {
        if let RenderCommand::Draw { entity, instances, .. } = command {
            drawn.push((entity, instances));
        }
    }
    assert_eq!(drawn.len(), registered.len());
    for entry in &registered {
        assert_eq!(drawn.iter().filter(|d| *d == entry).count(), 1);
    }
    let total: u32 = drawn.iter().map(|d| d.1).sum();
    assert_eq!(total, 17);
}

#[test]
fn an_entity_for_an_unknown_place_is_refused() {
    let mut resources = Resources::new();
    let layout = BufferBindingLayout::new_uniform(0, ShaderStage::vertex(), 64);
    let camera = layout.create_binding(&mut resources);
    let mut renderer = Renderer::new();
    renderer.add_render_pass(shadow_pass()).unwrap();
    let cube = Geometry::new(0, formats(), 36);
    let before = renderer.commands();
    let bindings = BindingEntries::new().add(&camera);
    let result = renderer.add_pipeline_entity(1, 0, &resources, &cube, bindings, 1);
    assert_eq!(result, Err(EntityError::UnknownPipeline));
    let bindings = BindingEntries::new().add(&camera);
    let result = renderer.add_pipeline_entity(0, 1, &resources, &cube, bindings, 1);
    assert_eq!(result, Err(EntityError::UnknownPipeline));
    let result = renderer.add_pipeline_entity(0, 0, &resources, &cube, BindingEntries::new(), 1);
    assert_eq!(result, Err(EntityError::BindingCount { expected: 1, found: 0 }));
    assert_eq!(renderer.commands(), before);
}
