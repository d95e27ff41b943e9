//! The graphics manager: it numbers the resources, texture views and
//! geometries of a scene, creates pipelines, registers entities and says
//! what is drawn each frame.

use crate::binding::buffer::{BufferBinding, BufferBindingLayout, BufferDescriptor};
use crate::binding::sampler::{SamplerBinding, SamplerBindingLayout};
use crate::binding::texture::{
    Extent3d, TextureBinding, TextureBindingLayout, TextureDescriptor, TextureDimension,
};
use crate::binding::{BindGroupLayoutEntry, BindingLayout, Resources};
use crate::flags::{BufferUsage, TextureUsage};
use crate::format::{TextureFormat, VertexFormat};
use crate::pipeline::{
    pipeline_error, BindingEntries, BindingLayoutEntries, EntityError, EntityView,
    Geometry, GeometryView, Pipeline, PipelineError, PipelineView,
};
use crate::render_pass::{swapchain_color_format, TextureView};
use crate::renderer::{EntityId, RenderCommand, Renderer};
use crate::setup::{swap_chain_descriptor, SwapChainDescriptor};
use crate::state::{ColorStateDescriptor, DepthStencilStateDescriptor, RasterizationStateDescriptor};
use crate::vertex::{attributes_size, vertex_buffer_layout, Vertex};
use crate::words::{halves_bytes, halves_to_bytes};
use vstd::prelude::*;

verus! {

/// The bytes of `chunks`, one chunk after the other.
pub open spec fn concat_bytes(chunks: Seq<Seq<u8>>) -> Seq<u8>
    decreases chunks.len(),
{
    if chunks.len() == 0 {
        Seq::empty()
    } else {
        concat_bytes(chunks.drop_last()) + chunks.last()
    }
}

/// The first chunk at or after `start` that does not have `size` bytes.
pub open spec fn missized_from(chunks: Seq<Seq<u8>>, size: nat, start: int) -> Option<int>
    decreases chunks.len() - start,
{
    if start < 0 || start >= chunks.len() {
        None
    } else if chunks[start].len() != size {
        Some(start)
    } else {
        missized_from(chunks, size, start + 1)
    }
}

/// What `missized_from` finds: nothing exactly if every chunk from `start`
/// on has `size` bytes, and otherwise the first that has not.
pub proof fn lemma_missized_from(chunks: Seq<Seq<u8>>, size: nat, start: int)
    requires
        0 <= start,
    ensures
        match missized_from(chunks, size, start) {
            None => forall|k: int|
                start <= k < chunks.len() ==> (#[trigger] chunks[k]).len() == size,
            Some(p) => {
                &&& start <= p < chunks.len()
                &&& chunks[p].len() != size
                &&& forall|k: int| start <= k < p ==> (#[trigger] chunks[k]).len() == size
            },
        },
    decreases chunks.len() - start,
{
    if start < chunks.len() && chunks[start].len() == size {
        lemma_missized_from(chunks, size, start + 1);
    }
}

/// Chunks of `size` bytes each take `size` bytes per chunk.
pub proof fn lemma_concat_bytes_len(chunks: Seq<Seq<u8>>, size: nat)
    requires
        forall|k: int| 0 <= k < chunks.len() ==> (#[trigger] chunks[k]).len() == size,
    ensures
        concat_bytes(chunks).len() == size * chunks.len(),
    decreases chunks.len(),
{
    if chunks.len() > 0 {
        let fewer = chunks.drop_last();
        assert forall|k: int| 0 <= k < fewer.len() implies (#[trigger] fewer[k]).len() == size by {
            assert(fewer[k] == chunks[k]);
        }
        lemma_concat_bytes_len(fewer, size);
        assert(size * chunks.len() == size * fewer.len() + size) by (nonlinear_arith)
            requires
                chunks.len() == fewer.len() + 1,
        ;
    }
}

/// Why a geometry cannot be created.
#[derive(Clone, Copy, Debug, PartialEq, Eq, Structural)]
pub enum GeometryError {
    /// There are more than `u32::MAX` vertex attributes, so that they cannot
    /// be given shader locations.
    TooManyAttributes,
    /// The vertex at this position does not have as many bytes as its
    /// attributes take; it is the first such vertex.
    VertexSize { vertex: usize },
    /// There are more indices than one draw can take.
    TooManyIndices,
}

/// The error that keeps a geometry from being created from vertices with
/// these attribute formats and these bytes and from so many indices, if
/// there is one.
pub open spec fn geometry_error(
    formats: Seq<VertexFormat>,
    vertices: Seq<Seq<u8>>,
    index_count: nat,
) -> Option<GeometryError> {
    if formats.len() > u32::MAX {
        Some(GeometryError::TooManyAttributes)
    } else {
        match missized_from(vertices, attributes_size(formats), 0) {
            Some(p) => Some(GeometryError::VertexSize { vertex: p as usize }),
            None => if index_count > u32::MAX {
                Some(GeometryError::TooManyIndices)
            } else {
                None
            },
        }
    }
}

/// A new geometry with what the device needs to create its buffers.
#[derive(Debug)]
pub struct GeometryData {
    pub geometry: Geometry,
    /// The vertex buffer; its size is that of `vertex_data`.
    pub vertex_buffer: BufferDescriptor,
    /// The bytes of the vertices, one vertex after the other.
    pub vertex_data: Vec<u8>,
    /// The index buffer; its size is that of `index_data`.
    pub index_buffer: BufferDescriptor,
    /// The bytes of the indices: two each, least significant first.
    pub index_data: Vec<u8>,
}

/// A depth texture of the size of the window with a view of it.
#[derive(Clone, Copy, Debug, PartialEq, Eq, Structural)]
pub struct DepthTexture {
    pub view: TextureView,
    pub texture: TextureDescriptor,
}

/// The mathematical content of a [`GraphicsManager`].
pub struct GraphicsView {
    /// Width of the window in physical pixels.
    pub width: u32,
    /// Height of the window in physical pixels.
    pub height: u32,
    /// The slot each resource was created for, by the number of the
    /// resource.
    pub resources: Seq<BindGroupLayoutEntry>,
    /// The texture each texture view shows, by the number of the view.
    pub views: Seq<TextureDescriptor>,
    /// The number of indices of each geometry, by the number of the
    /// geometry.
    pub geometries: Seq<u32>,
}

/// The bookkeeping of the device: what was created, under which number.
#[derive(Debug)]
pub struct GraphicsManager {
    width: u32,
    height: u32,
    resources: Resources,
    views: Vec<TextureDescriptor>,
    geometries: Vec<u32>,
}

impl View for GraphicsManager {
    type V = GraphicsView;

    closed spec fn view(&self) -> GraphicsView {
        GraphicsView {
            width: self.width,
            height: self.height,
            resources: self.resources@,
            views: self.views@,
            geometries: self.geometries@,
        }
    }
}

/// Appends the bytes of `chunk`.
fn push_bytes(bytes: &mut Vec<u8>, chunk: &Vec<u8>)
    ensures
        final(bytes)@ == old(bytes)@ + chunk@,
{
    let mut k: usize = 0;
    while k < chunk.len()
        invariant
            k <= chunk@.len(),
            bytes@ == old(bytes)@ + chunk@.take(k as int),
        decreases chunk@.len() - k,
    {
        bytes.push(chunk[k]);
        assert(bytes@ =~= old(bytes)@ + chunk@.take(k + 1));
        k = k + 1;
    }
    assert(chunk@.take(chunk@.len() as int) =~= chunk@);
}

/// The views of the byte vectors of `vertices`.
pub open spec fn chunks_of(vertices: Seq<Vec<u8>>) -> Seq<Seq<u8>> {
    vertices.map_values(|v: Vec<u8>| v@)
}

impl GraphicsManager {
    /// The manager for a window of the given size, with nothing created yet.
    pub fn new(width: u32, height: u32) -> (graphics: GraphicsManager)
        ensures
            graphics@ == (GraphicsView {
                width,
                height,
                resources: Seq::empty(),
                views: Seq::empty(),
                geometries: Seq::empty(),
            }),
    {
        GraphicsManager {
            width,
            height,
            resources: Resources::new(),
            views: Vec::new(),
            geometries: Vec::new(),
        }
    }

    /// The size of the window: width, then height.
    pub fn get_window_size(&self) -> (size: (u32, u32))
        ensures
            size == (self@.width, self@.height),
    {
        (self.width, self.height)
    }

    /// The color format of the frames of the swap chain.
    pub fn get_swapchain_color_format() -> (format: TextureFormat)
        ensures
            format == swapchain_color_format(),
    {
        TextureFormat::Bgra8UnormSrgb
    }

    /// The swap chain for the window.
    pub fn swap_chain_descriptor(&self) -> (descriptor: SwapChainDescriptor)
        ensures
            descriptor.usage@ == 16,
            descriptor.format == swapchain_color_format(),
            descriptor.width == self@.width,
            descriptor.height == self@.height,
            descriptor.present_mode == crate::setup::PresentMode::Mailbox,
    {
        swap_chain_descriptor(self.width, self.height)
    }

    /// The table of resources.
    pub fn resources(&self) -> (resources: &Resources)
        ensures
            resources@ == self@.resources,
    {
        &self.resources
    }

    /// Creates a texture binding from `layout`, entered in the table of
    /// resources under the next free number.
    pub fn create_texture(&mut self, layout: &TextureBindingLayout) -> (binding: TextureBinding)
        ensures
            binding.id == old(self)@.resources.len(),
            binding.texture == layout.texture_descriptor(),
            binding.view == layout.view_descriptor(),
            final(self)@ == (GraphicsView {
                resources: old(self)@.resources.push(layout.entry()),
                ..old(self)@
            }),
    {
        layout.create_binding(&mut self.resources)
    }

    /// Creates a sampler binding from `layout`, entered in the table of
    /// resources under the next free number.
    pub fn create_sampler(&mut self, layout: &SamplerBindingLayout) -> (binding: SamplerBinding)
        ensures
            binding.id == old(self)@.resources.len(),
            binding.sampler == layout.sampler_descriptor(),
            final(self)@ == (GraphicsView {
                resources: old(self)@.resources.push(layout.entry()),
                ..old(self)@
            }),
    {
        layout.create_binding(&mut self.resources)
    }

    /// Creates a uniform-buffer binding from `layout`, entered in the table
    /// of resources under the next free number.
    pub fn create_buffer(&mut self, layout: &BufferBindingLayout) -> (binding: BufferBinding)
        ensures
            binding.id == old(self)@.resources.len(),
            binding.buffer.size == layout.size,
            binding.buffer.usage@ == 72,
            !binding.buffer.mapped_at_creation,
            final(self)@ == (GraphicsView {
                resources: old(self)@.resources.push(layout.entry()),
                ..old(self)@
            }),
    {
        layout.create_binding(&mut self.resources)
    }

    /// Creates a view of a texture described by `texture`, for use as an
    /// attachment; its number is the count of views created before it.
    pub fn create_texture_view(&mut self, texture: TextureDescriptor) -> (view: TextureView)
        ensures
            view == (TextureView { id: old(self)@.views.len() as usize, format: texture.format }),
            view.id == old(self)@.views.len(),
            final(self)@ == (GraphicsView { views: old(self)@.views.push(texture), ..old(self)@ }),
    {
        let id = self.views.len();
        self.views.push(texture);
        TextureView { id, format: texture.format }
    }

    /// Creates the depth texture of a pass that draws to the window: as
    /// large as the window, of 32-bit float depth, usable as attachment
    /// only, with a view of it.
    pub fn create_depth_texture_view(&mut self) -> (depth: DepthTexture)
        ensures
            depth.texture.size == (Extent3d {
                width: old(self)@.width,
                height: old(self)@.height,
                depth: 1,
            }),
            depth.texture.mip_level_count == 1,
            depth.texture.sample_count == 1,
            depth.texture.dimension == TextureDimension::D2,
            depth.texture.format == TextureFormat::Depth32Float,
            depth.texture.usage@ == 16,
            depth.view == (TextureView {
                id: old(self)@.views.len() as usize,
                format: TextureFormat::Depth32Float,
            }),
            depth.view.id == old(self)@.views.len(),
            final(self)@ == (GraphicsView {
                views: old(self)@.views.push(depth.texture),
                ..old(self)@
            }),
    {
        let texture = TextureDescriptor {
            size: Extent3d { width: self.width, height: self.height, depth: 1 },
            mip_level_count: 1,
            sample_count: 1,
            dimension: TextureDimension::D2,
            format: TextureFormat::Depth32Float,
            usage: TextureUsage::output_attachment(),
        };
        let view = self.create_texture_view(texture);
        DepthTexture { view, texture }
    }

    /// Creates a pipeline for vertices of type `V`; see [`Pipeline::new`].
    /// The attribute formats are those that `V` declares.
    pub fn create_pipeline<V: Vertex>(
        &self,
        vertex_shader: &str,
        fragment_shader: &str,
        entries: BindingLayoutEntries,
        color_state: Option<ColorStateDescriptor>,
        depth_state: Option<DepthStencilStateDescriptor>,
        raster_state: Option<RasterizationStateDescriptor>,
    ) -> (result: Result<Pipeline, PipelineError>)
        ensures
            match result {
                Ok(pipeline) => {
                    &&& pipeline_error(pipeline@.formats, entries@) is None
                    &&& pipeline@ == (PipelineView {
                        vertex_shader: vertex_shader@,
                        fragment_shader: fragment_shader@,
                        formats: pipeline@.formats,
                        layouts: entries@,
                        color_state,
                        depth_state,
                        raster_state,
                        entities: Seq::empty(),
                    })
                    &&& pipeline@.wf()
                },
                Err(error) => error is TooManyAttributes || pipeline_error(
                    Seq::<VertexFormat>::empty(),
                    entries@,
                ) == Some(error),
            },
            pipeline_error(Seq::<VertexFormat>::empty(), entries@) is Some ==> result is Err,
    {
        let formats = V::get_attribute_formats();
        Pipeline::new(
            vertex_shader,
            fragment_shader,
            formats,
            entries,
            color_state,
            depth_state,
            raster_state,
        )
    }

    /// Creates a geometry from the attribute formats of its vertices, the
    /// bytes of each vertex, and its indices. Each vertex must have as many
    /// bytes as tightly packed attributes of these formats take. The
    /// geometry gets the next free number; on an error nothing changes.
    pub fn build_geometry(
        &mut self,
        formats: Vec<VertexFormat>,
        vertices: &Vec<Vec<u8>>,
        indices: &Vec<u16>,
    ) -> (result: Result<GeometryData, GeometryError>)
        ensures
            match result {
                Ok(data) => {
                    &&& geometry_error(formats@, chunks_of(vertices@), indices@.len()) is None
                    &&& data.geometry@ == (GeometryView {
                        id: old(self)@.geometries.len() as usize,
                        formats: formats@,
                        index_count: indices@.len() as u32,
                    })
                    &&& data.geometry@.id == old(self)@.geometries.len()
                    &&& data.vertex_data@ == concat_bytes(chunks_of(vertices@))
                    &&& data.vertex_data@.len() == attributes_size(formats@) * vertices@.len()
                    &&& data.index_data@ == halves_bytes(indices@)
                    &&& data.vertex_buffer.size == data.vertex_data@.len()
                    &&& data.vertex_buffer.usage@ == 32
                    &&& !data.vertex_buffer.mapped_at_creation
                    &&& data.index_buffer.size == data.index_data@.len()
                    &&& data.index_buffer.usage@ == 16
                    &&& !data.index_buffer.mapped_at_creation
                    &&& final(self)@ == (GraphicsView {
                        geometries: old(self)@.geometries.push(indices@.len() as u32),
                        ..old(self)@
                    })
                },
                Err(error) => {
                    &&& geometry_error(formats@, chunks_of(vertices@), indices@.len()) == Some(
                        error,
                    )
                    &&& final(self)@ == old(self)@
                },
            },
    {
        let layout = match vertex_buffer_layout(&formats) {
            Some(layout) => layout,
            None => {
                return Err(GeometryError::TooManyAttributes);
            },
        };
        let stride = layout.stride;
        let ghost chunks = chunks_of(vertices@);
        let ghost size = attributes_size(formats@);
        let mut vertex_data: Vec<u8> = Vec::new();
        let mut k: usize = 0;
        while k < vertices.len()
            invariant
                *self == *old(self),
                formats@.len() <= u32::MAX,
                chunks == chunks_of(vertices@),
                size == attributes_size(formats@),
                stride == size,
                k <= vertices@.len(),
                missized_from(chunks, size, 0) == missized_from(chunks, size, k as int),
                vertex_data@ == concat_bytes(chunks.take(k as int)),
            decreases vertices@.len() - k,
        {
            let vertex = &vertices[k];
            assert(chunks[k as int] == vertex@);
            if vertex.len() as u64 != stride {
                assert(missized_from(chunks, size, k as int) == Some(k as int));
                return Err(GeometryError::VertexSize { vertex: k });
            }
            push_bytes(&mut vertex_data, vertex);
            proof {
                let next = chunks.take(k + 1);
                assert(next.drop_last() =~= chunks.take(k as int));
                assert(next.last() == vertex@);
            }
            k = k + 1;
        }
        proof {
            assert(chunks.take(vertices@.len() as int) =~= chunks);
            lemma_missized_from(chunks, size, 0);
            lemma_concat_bytes_len(chunks, size);
        }
        if indices.len() > u32::MAX as usize {
            return Err(GeometryError::TooManyIndices);
        }
        let index_count = indices.len() as u32;
        let index_data = halves_to_bytes(indices.as_slice());
        let id = self.geometries.len();
        self.geometries.push(index_count);
        let vertex_buffer = BufferDescriptor {
            size: vertex_data.len() as u64,
            usage: BufferUsage::vertex(),
            mapped_at_creation: false,
        };
        let index_buffer = BufferDescriptor {
            size: index_data.len() as u64,
            usage: BufferUsage::index(),
            mapped_at_creation: false,
        };
        Ok(
            GeometryData {
                geometry: Geometry::new(id, formats, index_count),
                vertex_buffer,
                vertex_data,
                index_buffer,
                index_data,
            },
        )
    }

    /// Creates a geometry from vertices of type `V` and from indices; see
    /// [`GraphicsManager::build_geometry`]. The formats and the bytes are
    /// those that `V` gives.
    pub fn create_geometry<V: Vertex>(&mut self, vertices: &Vec<V>, indices: &Vec<u16>) -> (result:
        Result<GeometryData, GeometryError>)
        ensures
            match result {
                Ok(data) => {
                    &&& data.geometry@.id == old(self)@.geometries.len()
                    &&& data.geometry@.index_count == indices@.len()
                    &&& data.vertex_data@.len() == attributes_size(data.geometry@.formats)
                        * vertices@.len()
                    &&& data.index_data@ == halves_bytes(indices@)
                    &&& final(self)@ == (GraphicsView {
                        geometries: old(self)@.geometries.push(indices@.len() as u32),
                        ..old(self)@
                    })
                },
                Err(error) => {
                    &&& error is TooManyIndices ==> indices@.len() > u32::MAX
                    &&& final(self)@ == old(self)@
                },
            },
    {
        let formats = V::get_attribute_formats();
        let mut bytes: Vec<Vec<u8>> = Vec::new();
        let mut k: usize = 0;
        while k < vertices.len()
            invariant
                k <= vertices@.len(),
                bytes@.len() == k,
            decreases vertices@.len() - k,
        {
            bytes.push(vertices[k].to_bytes());
            k = k + 1;
        }
        self.build_geometry(formats, &bytes, indices)
    }

    /// Registers an entity drawn once per frame with the pipeline at
    /// `pipeline` of the pass at `pass` of `renderer`; see
    /// [`GraphicsManager::add_instanced_pipeline_entity`].
    pub fn add_pipeline_entity(
        &self,
        renderer: &mut Renderer,
        pass: usize,
        pipeline: usize,
        geometry: &Geometry,
        bindings: BindingEntries,
    ) -> (result: Result<EntityId, EntityError>)
        ensures
            match result {
                Ok(id) => {
                    &&& old(renderer)@.entity_error(
                        pass as int,
                        pipeline as int,
                        self@.resources,
                        geometry@,
                        bindings@,
                    ) is None
                    &&& id == (EntityId {
                        pass,
                        pipeline,
                        entity: old(
                            renderer,
                        )@.passes[pass as int].pipelines[pipeline as int].entities.len() as usize,
                    })
                    &&& final(renderer)@ == old(renderer)@.with_entity(
                        pass as int,
                        pipeline as int,
                        EntityView { geometry: geometry@, bindings: bindings@, n_instances: 1 },
                    )
                },
                Err(error) => {
                    &&& old(renderer)@.entity_error(
                        pass as int,
                        pipeline as int,
                        self@.resources,
                        geometry@,
                        bindings@,
                    ) == Some(error)
                    &&& final(renderer)@ == old(renderer)@
                },
            },
            old(renderer)@.wf() ==> final(renderer)@.wf(),
            old(renderer)@.bound_in(self@.resources) ==> final(renderer)@.bound_in(
                self@.resources,
            ),
    {
        renderer.add_pipeline_entity(pass, pipeline, &self.resources, geometry, bindings, 1)
    }

    /// Registers an entity with the pipeline at `pipeline` of the pass at
    /// `pass` of `renderer`: `geometry`, drawn `n_instances` times in one
    /// instanced draw, with `bindings` bound. The vertices of the geometry
    /// must have the attribute formats of the pipeline, and there must be
    /// one binding for each layout of the pipeline, in the same order, each
    /// created from the layout at its position. Returns where the entity is
    /// registered; on an error nothing changes.
    pub fn add_instanced_pipeline_entity(
        &self,
        renderer: &mut Renderer,
        pass: usize,
        pipeline: usize,
        geometry: &Geometry,
        bindings: BindingEntries,
        n_instances: u32,
    ) -> (result: Result<EntityId, EntityError>)
        ensures
            match result {
                Ok(id) => {
                    &&& old(renderer)@.entity_error(
                        pass as int,
                        pipeline as int,
                        self@.resources,
                        geometry@,
                        bindings@,
                    ) is None
                    &&& id == (EntityId {
                        pass,
                        pipeline,
                        entity: old(
                            renderer,
                        )@.passes[pass as int].pipelines[pipeline as int].entities.len() as usize,
                    })
                    &&& final(renderer)@ == old(renderer)@.with_entity(
                        pass as int,
                        pipeline as int,
                        EntityView { geometry: geometry@, bindings: bindings@, n_instances },
                    )
                },
                Err(error) => {
                    &&& old(renderer)@.entity_error(
                        pass as int,
                        pipeline as int,
                        self@.resources,
                        geometry@,
                        bindings@,
                    ) == Some(error)
                    &&& final(renderer)@ == old(renderer)@
                },
            },
            old(renderer)@.wf() ==> final(renderer)@.wf(),
            old(renderer)@.bound_in(self@.resources) ==> final(renderer)@.bound_in(
                self@.resources,
            ),
    {
        renderer.add_pipeline_entity(
            pass,
            pipeline,
            &self.resources,
            geometry,
            bindings,
            n_instances,
        )
    }

    /// The commands that draw one frame of `renderer`: every pass in order,
    /// every pipeline of a pass in order, one instanced draw for every
    /// entity of a pipeline, and one submission.
    pub fn render(&self, renderer: &Renderer) -> (commands: Vec<RenderCommand>)
        ensures
            commands@ == renderer@.frame_commands(),
    {
        renderer.commands()
    }
}

} // verus!
