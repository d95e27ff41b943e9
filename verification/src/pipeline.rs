//! Pipelines and what is drawn with them: the ordered binding layouts a
//! pipeline expects, geometries, and the entities registered with a pipeline.

use crate::binding::{
    BindGroupLayoutEntry, Binding, BindingLayout, BindingResource, BindingType, Resources,
};
use crate::format::VertexFormat;
use crate::state::{ColorStateDescriptor, DepthStencilStateDescriptor, RasterizationStateDescriptor};
use crate::vertex::{
    copy_formats, is_packed_layout, same_formats, vertex_buffer_layout, VertexBufferDescriptor,
};
use vstd::prelude::*;

verus! {

/// The binding layouts of a pipeline, in the order of their binding indices.
#[derive(Debug)]
pub struct BindingLayoutEntries {
    entries: Vec<BindGroupLayoutEntry>,
}

impl View for BindingLayoutEntries {
    type V = Seq<BindGroupLayoutEntry>;

    closed spec fn view(&self) -> Seq<BindGroupLayoutEntry> {
        self.entries@
    }
}

impl BindingLayoutEntries {
    /// No layouts.
    pub fn new() -> (entries: BindingLayoutEntries)
        ensures
            entries@ == Seq::<BindGroupLayoutEntry>::empty(),
    {
        BindingLayoutEntries { entries: Vec::new() }
    }

    /// These layouts followed by `layout`.
    pub fn add<L: BindingLayout>(self, layout: &L) -> (entries: BindingLayoutEntries)
        ensures
            entries@ == self@.push(layout.entry()),
    {
        let mut entries = self.entries;
        entries.push(layout.get_entry());
        BindingLayoutEntries { entries }
    }

    /// Number of layouts.
    pub fn len(&self) -> (n: usize)
        ensures
            n == self@.len(),
    {
        self.entries.len()
    }
}

/// The resources bound for one entity, in the order of their binding indices.
#[derive(Debug)]
pub struct BindingEntries {
    resources: Vec<BindingResource>,
}

impl View for BindingEntries {
    type V = Seq<BindingResource>;

    closed spec fn view(&self) -> Seq<BindingResource> {
        self.resources@
    }
}

impl BindingEntries {
    /// No bindings.
    pub fn new() -> (entries: BindingEntries)
        ensures
            entries@ == Seq::<BindingResource>::empty(),
    {
        BindingEntries { resources: Vec::new() }
    }

    /// These bindings followed by `binding`.
    pub fn add<B: Binding>(self, binding: &B) -> (entries: BindingEntries)
        ensures
            entries@ == self@.push(binding.resource()),
    {
        let mut resources = self.resources;
        resources.push(binding.get_resource());
        BindingEntries { resources }
    }

    /// Number of bindings.
    pub fn len(&self) -> (n: usize)
        ensures
            n == self@.len(),
    {
        self.resources.len()
    }
}

/// Whether every layout sits at the position that its binding index names.
pub open spec fn is_positional(entries: Seq<BindGroupLayoutEntry>) -> bool {
    forall|i: int| 0 <= i < entries.len() ==> (#[trigger] entries[i]).binding == i
}

/// The first position at or after `start` whose layout names another binding
/// index than its position.
pub open spec fn misplaced_from(entries: Seq<BindGroupLayoutEntry>, start: int) -> Option<int>
    decreases entries.len() - start,
{
    if start < 0 || start >= entries.len() {
        None
    } else if entries[start].binding != start {
        Some(start)
    } else {
        misplaced_from(entries, start + 1)
    }
}

/// What `misplaced_from` finds: nothing exactly if the layouts from `start`
/// on are in place, and otherwise the first that is not.
pub proof fn lemma_misplaced_from(entries: Seq<BindGroupLayoutEntry>, start: int)
    requires
        0 <= start,
    ensures
        match misplaced_from(entries, start) {
            None => forall|i: int|
                start <= i < entries.len() ==> (#[trigger] entries[i]).binding == i,
            Some(p) => {
                &&& start <= p < entries.len()
                &&& entries[p].binding != p
                &&& forall|i: int| start <= i < p ==> (#[trigger] entries[i]).binding == i
            },
        },
    decreases entries.len() - start,
{
    if start < entries.len() && entries[start].binding == start {
        lemma_misplaced_from(entries, start + 1);
    }
}

/// Why a pipeline cannot be created.
#[derive(Clone, Copy, Debug, PartialEq, Eq, Structural)]
pub enum PipelineError {
    /// There are more than `u32::MAX` vertex attributes, so that they cannot
    /// be given shader locations.
    TooManyAttributes,
    /// The layout at `position` names another binding index than its
    /// position; it is the first such layout.
    BindingOrder { position: usize },
}

/// The error that keeps a pipeline with these vertex formats and binding
/// layouts from being created, if there is one.
pub open spec fn pipeline_error(
    formats: Seq<VertexFormat>,
    entries: Seq<BindGroupLayoutEntry>,
) -> Option<PipelineError> {
    if formats.len() > u32::MAX {
        Some(PipelineError::TooManyAttributes)
    } else {
        match misplaced_from(entries, 0) {
            Some(p) => Some(PipelineError::BindingOrder { position: p as usize }),
            None => None,
        }
    }
}

/// A vertex and index buffer pair, as the pipelines see it.
#[derive(Debug)]
pub struct Geometry {
    id: usize,
    formats: Vec<VertexFormat>,
    index_count: u32,
}

/// The mathematical content of a [`Geometry`].
pub struct GeometryView {
    /// The number under which the geometry was created.
    pub id: usize,
    /// The attribute formats of its vertices.
    pub formats: Seq<VertexFormat>,
    /// The number of its indices.
    pub index_count: u32,
}

impl View for Geometry {
    type V = GeometryView;

    closed spec fn view(&self) -> GeometryView {
        GeometryView { id: self.id, formats: self.formats@, index_count: self.index_count }
    }
}

impl Geometry {
    /// The geometry created under the number `id`, with vertices of these
    /// formats and `index_count` indices.
    pub fn new(id: usize, formats: Vec<VertexFormat>, index_count: u32) -> (geometry: Geometry)
        ensures
            geometry@ == (GeometryView { id, formats: formats@, index_count }),
    {
        Geometry { id, formats, index_count }
    }

    /// The number under which the geometry was created.
    pub fn id(&self) -> (id: usize)
        ensures
            id == self@.id,
    {
        self.id
    }

    /// The number of indices.
    pub fn index_count(&self) -> (n: u32)
        ensures
            n == self@.index_count,
    {
        self.index_count
    }

    /// The attribute formats of the vertices.
    pub fn formats(&self) -> (formats: &Vec<VertexFormat>)
        ensures
            formats@ == self@.formats,
    {
        &self.formats
    }

    /// Another handle to the same geometry.
    pub fn share(&self) -> (geometry: Geometry)
        ensures
            geometry@ == self@,
    {
        Geometry {
            id: self.id,
            formats: copy_formats(&self.formats),
            index_count: self.index_count,
        }
    }
}

/// One drawable: a geometry, the resources bound for it, and the number of
/// instances drawn.
#[derive(Debug)]
pub struct Entity {
    geometry: Geometry,
    bindings: Vec<BindingResource>,
    n_instances: u32,
}

/// The mathematical content of an [`Entity`].
pub struct EntityView {
    pub geometry: GeometryView,
    pub bindings: Seq<BindingResource>,
    pub n_instances: u32,
}

impl View for Entity {
    type V = EntityView;

    closed spec fn view(&self) -> EntityView {
        EntityView {
            geometry: self.geometry@,
            bindings: self.bindings@,
            n_instances: self.n_instances,
        }
    }
}

impl Entity {
    /// The geometry drawn.
    pub fn geometry(&self) -> (geometry: &Geometry)
        ensures
            geometry@ == self@.geometry,
    {
        &self.geometry
    }

    /// The resources bound, in the order of their binding indices.
    pub fn bindings(&self) -> (bindings: &Vec<BindingResource>)
        ensures
            bindings@ == self@.bindings,
    {
        &self.bindings
    }

    /// The number of instances drawn.
    pub fn n_instances(&self) -> (n: u32)
        ensures
            n == self@.n_instances,
    {
        self.n_instances
    }
}

/// Whether a resource is of the kind that a slot of type `ty` takes.
pub open spec fn kind_fits(ty: BindingType, resource: BindingResource) -> bool {
    match ty {
        BindingType::UniformBuffer { .. } => resource is Buffer,
        BindingType::Sampler { .. } => resource is Sampler,
        BindingType::SampledTexture { .. } => resource is TextureView,
    }
}

/// Whether `resource` can be bound to the slot `entry`: it is a resource of
/// `table`, of the right kind, and was created for exactly this slot.
pub open spec fn resource_fits(
    entry: BindGroupLayoutEntry,
    resource: BindingResource,
    table: Seq<BindGroupLayoutEntry>,
) -> bool {
    &&& resource.id_spec() < table.len()
    &&& table[resource.id_spec() as int] == entry
    &&& kind_fits(entry.ty, resource)
}

/// The first position at or after `start` whose binding does not fit the
/// layout at the same position.
pub open spec fn unfit_from(
    layouts: Seq<BindGroupLayoutEntry>,
    bindings: Seq<BindingResource>,
    table: Seq<BindGroupLayoutEntry>,
    start: int,
) -> Option<int>
    decreases layouts.len() - start,
{
    if start < 0 || start >= layouts.len() || start >= bindings.len() {
        None
    } else if !resource_fits(layouts[start], bindings[start], table) {
        Some(start)
    } else {
        unfit_from(layouts, bindings, table, start + 1)
    }
}

/// What `unfit_from` finds among as many bindings as layouts: nothing exactly
/// if every binding from `start` on fits, and otherwise the first that does
/// not.
pub proof fn lemma_unfit_from(
    layouts: Seq<BindGroupLayoutEntry>,
    bindings: Seq<BindingResource>,
    table: Seq<BindGroupLayoutEntry>,
    start: int,
)
    requires
        0 <= start,
        layouts.len() == bindings.len(),
    ensures
        match unfit_from(layouts, bindings, table, start) {
            None => forall|i: int|
                start <= i < layouts.len() ==> #[trigger] resource_fits(
                    layouts[i],
                    bindings[i],
                    table,
                ),
            Some(p) => {
                &&& start <= p < layouts.len()
                &&& !resource_fits(layouts[p], bindings[p], table)
                &&& forall|i: int|
                    start <= i < p ==> #[trigger] resource_fits(layouts[i], bindings[i], table)
            },
        },
    decreases layouts.len() - start,
{
    if start < layouts.len() && resource_fits(layouts[start], bindings[start], table) {
        lemma_unfit_from(layouts, bindings, table, start + 1);
    }
}

/// Why an entity cannot be registered with a pipeline.
#[derive(Clone, Copy, Debug, PartialEq, Eq, Structural)]
pub enum EntityError {
    /// There is no pipeline at the given place.
    UnknownPipeline,
    /// The vertices of the geometry do not have the attribute formats that
    /// the pipeline was created for.
    VertexFormats,
    /// The pipeline expects `expected` bindings and `found` were given.
    BindingCount { expected: usize, found: usize },
    /// The binding at `position` does not fit the layout that the pipeline
    /// has at that position; it is the first such binding.
    BindingMismatch { position: usize },
}

/// The mathematical content of a [`Pipeline`].
pub struct PipelineView {
    /// Path of the source of the vertex shader.
    pub vertex_shader: Seq<char>,
    /// Path of the source of the fragment shader.
    pub fragment_shader: Seq<char>,
    /// The attribute formats of the vertices the pipeline takes.
    pub formats: Seq<VertexFormat>,
    /// The binding layouts the pipeline expects, in order.
    pub layouts: Seq<BindGroupLayoutEntry>,
    pub color_state: Option<ColorStateDescriptor>,
    pub depth_state: Option<DepthStencilStateDescriptor>,
    pub raster_state: Option<RasterizationStateDescriptor>,
    /// The entities drawn with the pipeline, in the order of registration.
    pub entities: Seq<EntityView>,
}

impl PipelineView {
    /// Whether `entity` can be drawn with this pipeline: its vertices have
    /// the pipeline's formats, and it has one binding of the right kind for
    /// each layout, position by position.
    pub open spec fn accepts(self, entity: EntityView) -> bool {
        &&& entity.geometry.formats == self.formats
        &&& entity.bindings.len() == self.layouts.len()
        &&& forall|i: int|
            0 <= i < self.layouts.len() ==> kind_fits(
                (#[trigger] self.layouts[i]).ty,
                entity.bindings[i],
            )
    }

    /// The invariant of a pipeline: it has at most `u32::MAX` attributes, its
    /// layouts are in the order of their binding indices, and it accepts each
    /// of its entities.
    pub open spec fn wf(self) -> bool {
        &&& self.formats.len() <= u32::MAX
        &&& is_positional(self.layouts)
        &&& forall|k: int|
            0 <= k < self.entities.len() ==> self.accepts(#[trigger] self.entities[k])
    }

    /// Whether each binding of each entity is the resource of `table` that
    /// was created for the layout at its position.
    pub open spec fn bound_in(self, table: Seq<BindGroupLayoutEntry>) -> bool {
        forall|k: int, i: int|
            0 <= k < self.entities.len() && 0 <= i < self.layouts.len() ==> resource_fits(
                #[trigger] self.layouts[i],
                (#[trigger] self.entities[k]).bindings[i],
                table,
            )
    }

    /// This pipeline with one more entity.
    pub open spec fn with_entity(self, entity: EntityView) -> PipelineView {
        PipelineView { entities: self.entities.push(entity), ..self }
    }

    /// The error that keeps an entity with this geometry and these bindings
    /// from being registered, if there is one.
    pub open spec fn entity_error(
        self,
        table: Seq<BindGroupLayoutEntry>,
        geometry: GeometryView,
        bindings: Seq<BindingResource>,
    ) -> Option<EntityError> {
        if geometry.formats != self.formats {
            Some(EntityError::VertexFormats)
        } else if bindings.len() != self.layouts.len() {
            Some(
                EntityError::BindingCount {
                    expected: self.layouts.len() as usize,
                    found: bindings.len() as usize,
                },
            )
        } else {
            match unfit_from(self.layouts, bindings, table, 0) {
                Some(p) => Some(EntityError::BindingMismatch { position: p as usize }),
                None => None,
            }
        }
    }
}

/// A shader pair with its vertex formats, its fixed-function state and the
/// binding layouts it expects, together with the entities drawn with it.
#[derive(Debug)]
pub struct Pipeline {
    vertex_shader: String,
    fragment_shader: String,
    formats: Vec<VertexFormat>,
    layouts: Vec<BindGroupLayoutEntry>,
    color_state: Option<ColorStateDescriptor>,
    depth_state: Option<DepthStencilStateDescriptor>,
    raster_state: Option<RasterizationStateDescriptor>,
    entities: Vec<Entity>,
}

impl View for Pipeline {
    type V = PipelineView;

    closed spec fn view(&self) -> PipelineView {
        PipelineView {
            vertex_shader: self.vertex_shader@,
            fragment_shader: self.fragment_shader@,
            formats: self.formats@,
            layouts: self.layouts@,
            color_state: self.color_state,
            depth_state: self.depth_state,
            raster_state: self.raster_state,
            entities: self.entities@.map_values(|e: Entity| e@),
        }
    }
}

/// Whether a binding fits a layout, decided on the table of resources.
fn fits(entry: &BindGroupLayoutEntry, resource: BindingResource, resources: &Resources) -> (yes:
    bool)
    ensures
        yes == resource_fits(*entry, resource, resources@),
{
    let kind = match entry.ty {
        BindingType::UniformBuffer { .. } => match resource {
            BindingResource::Buffer(_) => true,
            _ => false,
        },
        BindingType::Sampler { .. } => match resource {
            BindingResource::Sampler(_) => true,
            _ => false,
        },
        BindingType::SampledTexture { .. } => match resource {
            BindingResource::TextureView(_) => true,
            _ => false,
        },
    };
    match resources.entry_of(resource.id()) {
        Some(made_for) => kind && made_for == *entry,
        None => false,
    }
}

impl Pipeline {
    /// Creates a pipeline from the paths of its shaders, the attribute
    /// formats of its vertices, its binding layouts and its state. The
    /// layouts have to be in the order of their binding indices, and there
    /// must not be more than `u32::MAX` attributes.
    pub fn new(
        vertex_shader: &str,
        fragment_shader: &str,
        formats: Vec<VertexFormat>,
        entries: BindingLayoutEntries,
        color_state: Option<ColorStateDescriptor>,
        depth_state: Option<DepthStencilStateDescriptor>,
        raster_state: Option<RasterizationStateDescriptor>,
    ) -> (result: Result<Pipeline, PipelineError>)
        ensures
            match result {
                Ok(pipeline) => {
                    &&& pipeline_error(formats@, entries@) is None
                    &&& pipeline@ == (PipelineView {
                        vertex_shader: vertex_shader@,
                        fragment_shader: fragment_shader@,
                        formats: formats@,
                        layouts: entries@,
                        color_state,
                        depth_state,
                        raster_state,
                        entities: Seq::empty(),
                    })
                    &&& pipeline@.wf()
                },
                Err(error) => pipeline_error(formats@, entries@) == Some(error),
            },
    {
        if formats.len() > u32::MAX as usize {
            return Err(PipelineError::TooManyAttributes);
        }
        let layouts = entries.entries;
        let mut i: usize = 0;
        while i < layouts.len()
            invariant
                formats@.len() <= u32::MAX,
                layouts@ == entries@,
                i <= layouts@.len(),
                misplaced_from(layouts@, 0) == misplaced_from(layouts@, i as int),
            decreases layouts@.len() - i,
        {
            if layouts[i].binding as usize != i {
                assert(misplaced_from(layouts@, i as int) == Some(i as int));
                return Err(PipelineError::BindingOrder { position: i });
            }
            i = i + 1;
        }
        proof {
            lemma_misplaced_from(layouts@, 0);
        }
        let pipeline = Pipeline {
            vertex_shader: vertex_shader.to_owned(),
            fragment_shader: fragment_shader.to_owned(),
            formats,
            layouts,
            color_state,
            depth_state,
            raster_state,
            entities: Vec::new(),
        };
        assert(pipeline@.entities =~= Seq::empty());
        Ok(pipeline)
    }

    /// Path of the source of the vertex shader.
    pub fn vertex_shader(&self) -> (path: &str)
        ensures
            path@ == self@.vertex_shader,
    {
        self.vertex_shader.as_str()
    }

    /// Path of the source of the fragment shader.
    pub fn fragment_shader(&self) -> (path: &str)
        ensures
            path@ == self@.fragment_shader,
    {
        self.fragment_shader.as_str()
    }

    /// The attribute formats of the vertices the pipeline takes.
    pub fn formats(&self) -> (formats: &Vec<VertexFormat>)
        ensures
            formats@ == self@.formats,
    {
        &self.formats
    }

    /// The layout of the vertex buffers the pipeline reads: tightly packed
    /// vertices with the pipeline's attribute formats.
    pub fn vertex_buffer(&self) -> (layout: Option<VertexBufferDescriptor>)
        ensures
            layout is Some <==> self@.formats.len() <= u32::MAX,
            layout is Some ==> is_packed_layout(layout->0, self@.formats),
    {
        vertex_buffer_layout(&self.formats)
    }

    /// The binding layouts the pipeline expects, in order.
    pub fn layouts(&self) -> (layouts: &Vec<BindGroupLayoutEntry>)
        ensures
            layouts@ == self@.layouts,
    {
        &self.layouts
    }

    /// The color output, if the pipeline writes color.
    pub fn color_state(&self) -> (state: Option<ColorStateDescriptor>)
        ensures
            state == self@.color_state,
    {
        self.color_state
    }

    /// The depth test, if the pipeline tests depth.
    pub fn depth_state(&self) -> (state: Option<DepthStencilStateDescriptor>)
        ensures
            state == self@.depth_state,
    {
        self.depth_state
    }

    /// The rasterization state, if one was given.
    pub fn raster_state(&self) -> (state: Option<RasterizationStateDescriptor>)
        ensures
            state == self@.raster_state,
    {
        self.raster_state
    }

    /// Number of entities registered.
    pub fn entity_count(&self) -> (n: usize)
        ensures
            n == self@.entities.len(),
    {
        self.entities.len()
    }

    /// The entity registered under `index`, if there is one.
    pub fn entity(&self, index: usize) -> (entity: Option<&Entity>)
        ensures
            index < self@.entities.len() ==> entity is Some && entity->0@
                == self@.entities[index as int],
            index >= self@.entities.len() ==> entity is None,
    {
        if index < self.entities.len() {
            Some(&self.entities[index])
        } else {
            None
        }
    }

    /// Registers an entity: `geometry` drawn `n_instances` times with
    /// `bindings` bound. The geometry must have the pipeline's vertex
    /// formats, and the bindings must fit the pipeline's layouts position by
    /// position, each binding being the resource of `resources` created for
    /// the layout at its position. Returns the index of the entity among
    /// those of the pipeline; on an error nothing changes.
    pub fn add_entity(
        &mut self,
        resources: &Resources,
        geometry: &Geometry,
        bindings: BindingEntries,
        n_instances: u32,
    ) -> (result: Result<usize, EntityError>)
        ensures
            match result {
                Ok(index) => {
                    &&& old(self)@.entity_error(resources@, geometry@, bindings@) is None
                    &&& index == old(self)@.entities.len()
                    &&& final(self)@ == old(self)@.with_entity(
                        EntityView { geometry: geometry@, bindings: bindings@, n_instances },
                    )
                },
                Err(error) => {
                    &&& old(self)@.entity_error(resources@, geometry@, bindings@) == Some(error)
                    &&& final(self)@ == old(self)@
                },
            },
            old(self)@.wf() ==> final(self)@.wf(),
            old(self)@.bound_in(resources@) ==> final(self)@.bound_in(resources@),
    {
        if !same_formats(geometry.formats(), &self.formats) {
            return Err(EntityError::VertexFormats);
        }
        if bindings.len() != self.layouts.len() {
            return Err(
                EntityError::BindingCount { expected: self.layouts.len(), found: bindings.len() },
            );
        }
        let mut i: usize = 0;
        while i < self.layouts.len()
            invariant
                *self == *old(self),
                geometry@.formats == self.formats@,
                bindings@.len() == self.layouts@.len(),
                i <= self.layouts@.len(),
                unfit_from(self.layouts@, bindings@, resources@, 0) == unfit_from(
                    self.layouts@,
                    bindings@,
                    resources@,
                    i as int,
                ),
            decreases self.layouts@.len() - i,
        {
            if !fits(&self.layouts[i], bindings.resources[i], resources) {
                assert(unfit_from(self.layouts@, bindings@, resources@, i as int) == Some(
                    i as int,
                ));
                return Err(EntityError::BindingMismatch { position: i });
            }
            i = i + 1;
        }
        proof {
            lemma_unfit_from(self.layouts@, bindings@, resources@, 0);
        }
        let index = self.entities.len();
        let entity =
            Entity { geometry: geometry.share(), bindings: bindings.resources, n_instances };
        let ghost added = entity@;
        self.entities.push(entity);
        proof {
            let before = old(self)@;
            let after = self@;
            assert(after.entities =~= before.entities.push(added));
            assert(after == before.with_entity(added));
            assert forall|i: int| 0 <= i < before.layouts.len() implies kind_fits(
                (#[trigger] before.layouts[i]).ty,
                added.bindings[i],
            ) by {
                assert(resource_fits(self.layouts@[i], bindings@[i], resources@));
            }
            assert(before.accepts(added));
            assert forall|k: int, i: int|
                before.bound_in(resources@) && 0 <= k < after.entities.len() && 0 <= i
                    < after.layouts.len() implies resource_fits(
                #[trigger] after.layouts[i],
                (#[trigger] after.entities[k]).bindings[i],
                resources@,
            ) by {
                if k < before.entities.len() {
                    assert(after.entities[k] == before.entities[k]);
                    assert(resource_fits(
                        before.layouts[i],
                        before.entities[k].bindings[i],
                        resources@,
                    ));
                } else {
                    assert(resource_fits(self.layouts@[i], bindings@[i], resources@));
                }
            }
        }
        Ok(index)
    }
}

/// In a well-formed pipeline the vertices of every entity have the attribute
/// formats that the pipeline was created with, and every entity has one
/// binding of the right kind for each layout of the pipeline.
pub proof fn lemma_entities_match_pipeline(pipeline: PipelineView, k: int, i: int)
    requires
        pipeline.wf(),
        0 <= k < pipeline.entities.len(),
        0 <= i < pipeline.layouts.len(),
    ensures
        pipeline.entities[k].geometry.formats == pipeline.formats,
        pipeline.entities[k].bindings.len() == pipeline.layouts.len(),
        kind_fits(pipeline.layouts[i].ty, pipeline.entities[k].bindings[i]),
        pipeline.layouts[i].binding == i,
{
    assert(pipeline.accepts(pipeline.entities[k]));
}

/// An entity is registered exactly if the pipeline accepts it and each of
/// its bindings is the resource that was created for the layout at its
/// position.
pub proof fn lemma_registered_iff_fitting(
    pipeline: PipelineView,
    table: Seq<BindGroupLayoutEntry>,
    entity: EntityView,
)
    ensures
        pipeline.entity_error(table, entity.geometry, entity.bindings) is None <==> {
            &&& entity.geometry.formats == pipeline.formats
            &&& entity.bindings.len() == pipeline.layouts.len()
            &&& forall|i: int|
                0 <= i < pipeline.layouts.len() ==> #[trigger] resource_fits(
                    pipeline.layouts[i],
                    entity.bindings[i],
                    table,
                )
        },
        pipeline.entity_error(table, entity.geometry, entity.bindings) is None ==> pipeline.accepts(
            entity,
        ),
{
    if entity.geometry.formats == pipeline.formats && entity.bindings.len()
        == pipeline.layouts.len() {
        lemma_unfit_from(pipeline.layouts, entity.bindings, table, 0);
        if pipeline.entity_error(table, entity.geometry, entity.bindings) is None {
            assert forall|i: int| 0 <= i < pipeline.layouts.len() implies kind_fits(
                (#[trigger] pipeline.layouts[i]).ty,
                entity.bindings[i],
            ) by {
                assert(resource_fits(pipeline.layouts[i], entity.bindings[i], table));
            }
        }
    }
}

} // verus!
