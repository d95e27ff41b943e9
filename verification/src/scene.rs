//! The scene of the program: two cubes, drawn as the instances of one
//! entity by one pipeline in one pass that draws to the window. Building it
//! cannot fail: every rule that a pipeline, a pass and an entity have to meet
//! is met by construction.

use crate::binding::sampler::CompareFunction;
use crate::binding::{Binding, BindingLayout};
use crate::flags::ShaderStage;
use crate::format::{TextureFormat, VertexFormat};
use crate::graphics::{
    chunks_of, concat_bytes, missized_from, DepthTexture, GeometryData, GraphicsManager,
    GraphicsView,
};
use crate::handle::camera::{CameraHandle, CameraHandleLayout};
use crate::handle::object::{InstancedObjectHandle, InstancedObjectHandleLayout, Object};
use crate::pipeline::{
    misplaced_from, resource_fits, unfit_from, BindingEntries, BindingLayoutEntries, EntityView,
    GeometryView, Pipeline, PipelineView,
};
use crate::render_pass::{
    AttachmentView, Color, ColorAttachment, ColorLoadOp, ColorOperations, DepthAttachment,
    DepthLoadOp, DepthOperations, RenderPass, RenderPassView,
};
use crate::renderer::{
    draw_command, draw_commands, pass_commands, passes_commands, pipeline_commands,
    pipelines_commands, EntityId, RenderCommand, Renderer, RendererView,
};
use crate::shapes::{create_vertices, cube_indices, cube_vertices};
use crate::state::{
    BlendDescriptor, BlendFactor, BlendOperation, ColorStateDescriptor, CullMode,
    DepthStencilStateDescriptor, FrontFace, RasterizationStateDescriptor, COLOR_WRITE_ALL,
};
use crate::vector::ONE;
use crate::vertex::{attributes_size, Vertex, VertexBasic};
use crate::words::{halves_bytes, words_bytes};
use vstd::pervasive::unreached;
use vstd::prelude::*;

verus! {

/// Number of cubes.
pub const N_OBJECTS: u32 = 2;

/// Path of the source of the vertex shader.
pub const VERTEX_SHADER: &'static str = "shaders/shader.vert";

/// Path of the source of the fragment shader.
pub const FRAGMENT_SHADER: &'static str = "shaders/shader.frag";

/// The color the window is cleared to: (0.1, 0.2, 0.3, 1.0) as
/// double-precision bit patterns.
pub open spec fn background() -> Color {
    Color {
        r: 0x3fb9_9999_9999_999a,
        g: 0x3fc9_9999_9999_999a,
        b: 0x3fd3_3333_3333_3333,
        a: 0x3ff0_0000_0000_0000,
    }
}

/// The color attachment of the pass: the frame of the swap chain, cleared
/// to the background and kept.
pub open spec fn color_attachment() -> ColorAttachment {
    ColorAttachment {
        view: AttachmentView::Dynamic,
        ops: ColorOperations { load: ColorLoadOp::Clear(background()), store: true },
    }
}

/// The depth attachment of the pass: `depth`, cleared to 1.0 and dropped
/// after the pass.
pub open spec fn depth_attachment(depth: DepthTexture) -> DepthAttachment {
    DepthAttachment {
        view: AttachmentView::Static(depth.view),
        ops: DepthOperations { load: DepthLoadOp::Clear(ONE), store: false },
    }
}

/// The blend equation that replaces the destination by the source.
pub open spec fn replace() -> BlendDescriptor {
    BlendDescriptor {
        src_factor: BlendFactor::One,
        dst_factor: BlendFactor::Zero,
        operation: BlendOperation::Add,
    }
}

/// The color output of the pipeline: the format of the swap chain, replacing
/// what is there in all channels.
pub open spec fn color_state() -> ColorStateDescriptor {
    ColorStateDescriptor {
        format: TextureFormat::Bgra8UnormSrgb,
        color_blend: replace(),
        alpha_blend: replace(),
        write_mask: COLOR_WRITE_ALL,
    }
}

/// The depth test of the pipeline: nearer fragments win and are written.
pub open spec fn depth_state() -> DepthStencilStateDescriptor {
    DepthStencilStateDescriptor {
        format: TextureFormat::Depth32Float,
        depth_write_enabled: true,
        depth_compare: CompareFunction::Less,
    }
}

/// The rasterization of the pipeline: counter-clockwise fronts, backs
/// dropped, no depth bias.
pub open spec fn raster_state() -> RasterizationStateDescriptor {
    RasterizationStateDescriptor {
        front_face: FrontFace::Ccw,
        cull_mode: CullMode::Back,
        clamp_depth: false,
        depth_bias: 0,
        depth_bias_slope_scale: 0,
        depth_bias_clamp: 0,
    }
}

/// The bytes of the vertices of the cube, one vertex after the other.
pub open spec fn cube_bytes() -> Seq<u8> {
    concat_bytes(Seq::new(cube_vertices().len(), |k: int| words_bytes(cube_vertices()[k].words())))
}

/// The scene and what belongs to it.
#[derive(Debug)]
pub struct Scene {
    /// The passes of a frame.
    pub renderer: Renderer,
    /// The layout of the slot of the cubes.
    pub objects_layout: InstancedObjectHandleLayout,
    /// The layout of the slot of the camera.
    pub camera_layout: CameraHandleLayout,
    /// The cubes.
    pub objects: InstancedObjectHandle,
    /// The camera.
    pub camera: CameraHandle,
    /// The depth texture of the pass.
    pub depth: DepthTexture,
    /// The geometry of a cube.
    pub cube: GeometryData,
    /// Where the cubes are registered.
    pub entity: EntityId,
}

impl Scene {
    /// The pipeline of the scene, without entities.
    pub open spec fn pipeline(self) -> PipelineView {
        PipelineView {
            vertex_shader: VERTEX_SHADER@,
            fragment_shader: FRAGMENT_SHADER@,
            formats: seq![VertexFormat::Float3, VertexFormat::Float3],
            layouts: seq![self.objects_layout.entry(), self.camera_layout.entry()],
            color_state: Some(color_state()),
            depth_state: Some(depth_state()),
            raster_state: Some(raster_state()),
            entities: Seq::empty(),
        }
    }

    /// The one entity of the scene: the cube, drawn once for each object,
    /// with the objects bound first and the camera second.
    pub open spec fn cubes(self) -> EntityView {
        EntityView {
            geometry: self.cube.geometry@,
            bindings: seq![self.objects.resource(), self.camera.resource()],
            n_instances: N_OBJECTS,
        }
    }

    /// The one pass of the scene.
    pub open spec fn pass(self) -> RenderPassView {
        RenderPassView {
            color_attachment: Some(color_attachment()),
            depth_attachment: Some(depth_attachment(self.depth)),
            pipelines: seq![self.pipeline().with_entity(self.cubes())],
        }
    }

    /// Builds the scene: creates the cubes and the camera in their initial
    /// state, the depth texture, the geometry of the cube, and a renderer of
    /// one pass with one pipeline, with which the cubes are registered as one
    /// entity of two instances.
    pub fn new(graphics: &mut GraphicsManager) -> (scene: Scene)
        ensures
            scene.objects_layout.n_instances == N_OBJECTS,
            scene.objects_layout.layout.binding == 0,
            scene.objects_layout.layout.visibility@ == 1,
            scene.objects_layout.layout.size == 160,
            scene.camera_layout.layout.binding == 1,
            scene.camera_layout.layout.visibility@ == 1,
            scene.camera_layout.layout.size == 64,
            scene.objects@.objects == Seq::new(N_OBJECTS as nat, |k: int| Object::initial()),
            scene.objects@.binding.id == old(graphics)@.resources.len(),
            scene.objects@.binding.buffer.size == 160,
            scene.camera == CameraHandleLayout::initial(scene.camera.binding),
            scene.camera.binding.id == old(graphics)@.resources.len() + 1,
            scene.camera.binding.buffer.size == 64,
            scene.depth.view.id == old(graphics)@.views.len(),
            scene.depth.view.format == TextureFormat::Depth32Float,
            scene.depth.texture.size.width == old(graphics)@.width,
            scene.depth.texture.size.height == old(graphics)@.height,
            scene.cube.geometry@ == (GeometryView {
                id: old(graphics)@.geometries.len() as usize,
                formats: seq![VertexFormat::Float3, VertexFormat::Float3],
                index_count: 36,
            }),
            scene.cube.vertex_data@ == cube_bytes(),
            scene.cube.vertex_data@.len() == 576,
            scene.cube.index_data@ == halves_bytes(cube_indices()),
            scene.entity == (EntityId { pass: 0, pipeline: 0, entity: 0 }),
            scene.renderer@ == (RendererView { passes: seq![scene.pass()] }),
            scene.renderer@.wf(),
            scene.renderer@.bound_in(final(graphics)@.resources),
            final(graphics)@ == (GraphicsView {
                resources: old(graphics)@.resources.push(scene.objects_layout.entry()).push(
                    scene.camera_layout.entry(),
                ),
                views: old(graphics)@.views.push(scene.depth.texture),
                geometries: old(graphics)@.geometries.push(36),
                ..old(graphics)@
            }),
    {
        let objects_layout = InstancedObjectHandleLayout::new(0, ShaderStage::vertex(), N_OBJECTS);
        let objects = objects_layout.create_handle(graphics);
        let camera_layout = CameraHandleLayout::new(1, ShaderStage::vertex());
        let camera = camera_layout.create_handle(graphics);
        let depth = graphics.create_depth_texture_view();

        let entries = BindingLayoutEntries::new().add(&objects_layout).add(&camera_layout);
        let formats = VertexBasic::get_attribute_formats();
        proof {
            reveal_with_fuel(misplaced_from, 3);
            assert(entries@ =~= seq![objects_layout.entry(), camera_layout.entry()]);
            assert(misplaced_from(entries@, 0) is None);
        }
        let created = Pipeline::new(
            VERTEX_SHADER,
            FRAGMENT_SHADER,
            formats,
            entries,
            Some(
                ColorStateDescriptor {
                    format: GraphicsManager::get_swapchain_color_format(),
                    color_blend: BlendDescriptor::replace(),
                    alpha_blend: BlendDescriptor::replace(),
                    write_mask: COLOR_WRITE_ALL,
                },
            ),
            Some(
                DepthStencilStateDescriptor {
                    format: TextureFormat::Depth32Float,
                    depth_write_enabled: true,
                    depth_compare: CompareFunction::Less,
                },
            ),
            Some(RasterizationStateDescriptor::culling(CullMode::Back)),
        );
        let pipeline = match created {
            Ok(pipeline) => pipeline,
            Err(_) => unreached(),
        };
        let ghost empty_pipeline = pipeline@;

        let mut pass = RenderPass::new();
        pass.set_color_attachment(
            AttachmentView::Dynamic,
            ColorOperations {
                load: ColorLoadOp::Clear(
                    Color {
                        r: 0x3fb9_9999_9999_999a,
                        g: 0x3fc9_9999_9999_999a,
                        b: 0x3fd3_3333_3333_3333,
                        a: 0x3ff0_0000_0000_0000,
                    },
                ),
                store: true,
            },
        );
        pass.set_depth_attachment(
            AttachmentView::Static(depth.view),
            DepthOperations { load: DepthLoadOp::Clear(ONE), store: false },
        );
        let pipeline_index = pass.add_pipeline(pipeline);
        proof {
            assert(pass@.pipelines =~= seq![empty_pipeline]);
            reveal_with_fuel(RenderPassView::format_error_from, 3);
            assert(pass@.format_error_from(0) is None);
            assert(pass@.wf());
        }
        let mut renderer = Renderer::new();
        let pass_index = match renderer.add_render_pass(pass) {
            Ok(index) => index,
            Err(_) => unreached(),
        };

        let cube = Self::cube(graphics);

        let bindings = BindingEntries::new().add(&objects).add(&camera);
        proof {
            let table = graphics@.resources;
            let layouts = empty_pipeline.layouts;
            assert(bindings@ =~= seq![objects.resource(), camera.resource()]);
            assert(renderer@.passes[0].pipelines[0] == empty_pipeline);
            assert(resource_fits(layouts[0], bindings@[0], table));
            assert(resource_fits(layouts[1], bindings@[1], table));
            reveal_with_fuel(unfit_from, 3);
            assert(unfit_from(layouts, bindings@, table, 0) is None);
        }
        let registered = graphics.add_instanced_pipeline_entity(
            &mut renderer,
            pass_index,
            pipeline_index,
            &cube.geometry,
            bindings,
            N_OBJECTS,
        );
        let entity = match registered {
            Ok(id) => id,
            Err(_) => unreached(),
        };
        let scene = Scene {
            renderer,
            objects_layout,
            camera_layout,
            objects,
            camera,
            depth,
            cube,
            entity,
        };
        proof {
            assert(empty_pipeline == scene.pipeline());
            assert(scene.renderer@.passes[0].pipelines =~= scene.pass().pipelines);
            assert(scene.renderer@.passes =~= seq![scene.pass()]);
            assert(scene.renderer@.bound_in(graphics@.resources)) by {
                let table = graphics@.resources;
                let pipeline = scene.pass().pipelines[0];
                assert forall|k: int, i: int|
                    0 <= k < pipeline.entities.len() && 0 <= i
                        < pipeline.layouts.len() implies resource_fits(
                    #[trigger] pipeline.layouts[i],
                    (#[trigger] pipeline.entities[k]).bindings[i],
                    table,
                ) by {
                    assert(k == 0);
                    assert(i == 0 || i == 1);
                }
                assert(scene.pass().bound_in(table));
            }
        }
        scene
    }

    /// Creates the geometry of the cube.
    fn cube(graphics: &mut GraphicsManager) -> (cube: GeometryData)
        ensures
            cube.geometry@ == (GeometryView {
                id: old(graphics)@.geometries.len() as usize,
                formats: seq![VertexFormat::Float3, VertexFormat::Float3],
                index_count: 36,
            }),
            cube.vertex_data@ == cube_bytes(),
            cube.vertex_data@.len() == 576,
            cube.index_data@ == halves_bytes(cube_indices()),
            final(graphics)@ == (GraphicsView {
                geometries: old(graphics)@.geometries.push(36),
                ..old(graphics)@
            }),
    {
        let (vertices, indices) = create_vertices();
        let formats = VertexBasic::get_attribute_formats();
        let mut bytes: Vec<Vec<u8>> = Vec::new();
        let mut k: usize = 0;
        while k < vertices.len()
            invariant
                k <= vertices@.len(),
                bytes@.len() == k,
                forall|i: int|
                    0 <= i < k ==> (#[trigger] bytes@[i])@ == words_bytes(vertices@[i].words())
                        && bytes@[i]@.len() == 24,
            decreases vertices@.len() - k,
        {
            bytes.push(vertices[k].to_bytes());
            k = k + 1;
        }
        proof {
            let chunks = chunks_of(bytes@);
            assert(chunks =~= Seq::new(
                cube_vertices().len(),
                |k: int| words_bytes(cube_vertices()[k].words()),
            ));
            reveal_with_fuel(attributes_size, 3);
            assert(formats@.drop_last() =~= seq![VertexFormat::Float3]);
            assert(formats@.drop_last().drop_last() =~= Seq::<VertexFormat>::empty());
            assert(attributes_size(formats@) == 24);
            lemma_none_missized(chunks, 24, 0);
        }
        match graphics.build_geometry(formats, &bytes, &indices) {
            Ok(cube) => cube,
            Err(_) => unreached(),
        }
    }
}

/// Where every chunk has `size` bytes, none is found that has not.
proof fn lemma_none_missized(chunks: Seq<Seq<u8>>, size: nat, start: int)
    requires
        0 <= start,
        forall|k: int| 0 <= k < chunks.len() ==> (#[trigger] chunks[k]).len() == size,
    ensures
        missized_from(chunks, size, start) is None,
    decreases chunks.len() - start,
{
    if start < chunks.len() {
        lemma_none_missized(chunks, size, start + 1);
    }
}

/// A frame of the scene is one pass: the attachments are bound, the pipeline
/// is set, the cube is drawn once with two instances, the pass ends and is
/// submitted.
pub proof fn lemma_scene_frame(scene: Scene)
    requires
        scene.renderer@ == (RendererView { passes: seq![scene.pass()] }),
    ensures
        scene.renderer@.frame_commands() == seq![
            RenderCommand::BeginPass {
                pass: 0,
                color: Some(color_attachment()),
                depth: Some(depth_attachment(scene.depth)),
            },
            RenderCommand::SetPipeline { pass: 0, pipeline: 0 },
            RenderCommand::Draw {
                entity: EntityId { pass: 0, pipeline: 0, entity: 0 },
                geometry: scene.cube.geometry@.id,
                index_count: scene.cube.geometry@.index_count,
                instances: N_OBJECTS,
            },
            RenderCommand::EndPass,
            RenderCommand::Submit,
        ],
{
    reveal_with_fuel(passes_commands, 3);
    reveal_with_fuel(pipelines_commands, 3);
    let pass = scene.pass();
    let pipeline = pass.pipelines[0];
    assert(pipeline.entities =~= seq![scene.cubes()]);
    let draws = draw_commands(0, 0, pipeline.entities);
    assert(draws =~= seq![draw_command(0, 0, 0, scene.cubes())]);
    assert(pipelines_commands(0, pass.pipelines, 1) =~= pipeline_commands(0, 0, pipeline));
    assert(passes_commands(scene.renderer@.passes, 1) =~= pass_commands(0, pass));
}

} // verus!
