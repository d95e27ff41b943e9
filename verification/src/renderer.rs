//! The renderer: the render passes of a frame, in the order in which they are
//! submitted, and the commands that draw a frame.

use crate::binding::{BindGroupLayoutEntry, BindingResource, Resources};
use crate::pipeline::{
    resource_fits, BindingEntries, EntityError, EntityView, Geometry, GeometryView, Pipeline,
    PipelineView,
};
use crate::render_pass::{
    ColorAttachment, DepthAttachment, PassError, RenderPass, RenderPassView,
};
use vstd::prelude::*;

verus! {

/// Where an entity is registered: the index of its pass in the renderer, of
/// its pipeline in the pass, and its own index in the pipeline.
#[derive(Clone, Copy, Debug, PartialEq, Eq, Structural)]
pub struct EntityId {
    pub pass: usize,
    pub pipeline: usize,
    pub entity: usize,
}

/// One step of drawing a frame.
#[derive(Clone, Copy, Debug, PartialEq, Eq, Structural)]
pub enum RenderCommand {
    /// Begin the pass with this index, drawing into these attachments.
    BeginPass { pass: usize, color: Option<ColorAttachment>, depth: Option<DepthAttachment> },
    /// Use the pipeline with this index of the pass with this index.
    SetPipeline { pass: usize, pipeline: usize },
    /// Bind the resources and the buffers of the geometry of this entity, and
    /// draw all its indices `instances` times in one instanced draw.
    Draw { entity: EntityId, geometry: usize, index_count: u32, instances: u32 },
    /// End the pass that was begun last.
    EndPass,
    /// Submit what was encoded.
    Submit,
}

/// The draw of the entity at `index` of the pipeline at `pipeline` of the
/// pass at `pass`.
pub open spec fn draw_command(
    pass: int,
    pipeline: int,
    index: int,
    entity: EntityView,
) -> RenderCommand {
    RenderCommand::Draw {
        entity: EntityId {
            pass: pass as usize,
            pipeline: pipeline as usize,
            entity: index as usize,
        },
        geometry: entity.geometry.id,
        index_count: entity.geometry.index_count,
        instances: entity.n_instances,
    }
}

/// One draw for each of the entities, in order.
pub open spec fn draw_commands(pass: int, pipeline: int, entities: Seq<EntityView>) -> Seq<
    RenderCommand,
> {
    Seq::new(entities.len(), |k: int| draw_command(pass, pipeline, k, entities[k]))
}

/// The commands of one pipeline: it is set, then its entities are drawn.
pub open spec fn pipeline_commands(pass: int, index: int, pipeline: PipelineView) -> Seq<
    RenderCommand,
> {
    seq![RenderCommand::SetPipeline { pass: pass as usize, pipeline: index as usize }]
        + draw_commands(pass, index, pipeline.entities)
}

/// The commands of the first `count` pipelines of a pass, in order.
pub open spec fn pipelines_commands(pass: int, pipelines: Seq<PipelineView>, count: int) -> Seq<
    RenderCommand,
>
    decreases count,
{
    if count <= 0 {
        Seq::empty()
    } else {
        pipelines_commands(pass, pipelines, count - 1) + pipeline_commands(
            pass,
            count - 1,
            pipelines[count - 1],
        )
    }
}

/// The commands of one pass: its attachments are bound once, its pipelines
/// run in the order in which they were added, and the pass ends.
pub open spec fn pass_commands(index: int, pass: RenderPassView) -> Seq<RenderCommand> {
    seq![
        RenderCommand::BeginPass {
            pass: index as usize,
            color: pass.color_attachment,
            depth: pass.depth_attachment,
        },
    ] + pipelines_commands(index, pass.pipelines, pass.pipelines.len() as int) + seq![
        RenderCommand::EndPass,
    ]
}

/// The commands of the first `count` passes, in order.
pub open spec fn passes_commands(passes: Seq<RenderPassView>, count: int) -> Seq<RenderCommand>
    decreases count,
{
    if count <= 0 {
        Seq::empty()
    } else {
        passes_commands(passes, count - 1) + pass_commands(count - 1, passes[count - 1])
    }
}

/// The mathematical content of a [`Renderer`].
pub struct RendererView {
    /// The passes, in the order in which they were added.
    pub passes: Seq<RenderPassView>,
}

impl RendererView {
    /// The invariant of a renderer: each pass is well-formed, and the formats
    /// of its pipelines agree with its attachments.
    pub open spec fn wf(self) -> bool {
        forall|i: int|
            0 <= i < self.passes.len() ==> (#[trigger] self.passes[i]).wf()
                && self.passes[i].formats_agree()
    }

    /// Whether each binding of each entity is the resource of `table` that
    /// was created for the layout at its position.
    pub open spec fn bound_in(self, table: Seq<BindGroupLayoutEntry>) -> bool {
        forall|i: int| 0 <= i < self.passes.len() ==> (#[trigger] self.passes[i]).bound_in(table)
    }

    /// The commands that draw a frame: the passes in the order in which they
    /// were added, then one submission.
    pub open spec fn frame_commands(self) -> Seq<RenderCommand> {
        passes_commands(self.passes, self.passes.len() as int) + seq![RenderCommand::Submit]
    }

    /// This renderer with one more pass.
    pub open spec fn with_pass(self, pass: RenderPassView) -> RendererView {
        RendererView { passes: self.passes.push(pass) }
    }

    /// This renderer with one more entity in the pipeline at `pipeline` of
    /// the pass at `pass`.
    pub open spec fn with_entity(
        self,
        pass: int,
        pipeline: int,
        entity: EntityView,
    ) -> RendererView {
        RendererView {
            passes: self.passes.update(pass, self.passes[pass].with_entity(pipeline, entity)),
        }
    }

    /// The error that keeps an entity from being registered with the
    /// pipeline at `pipeline` of the pass at `pass`, if there is one.
    pub open spec fn entity_error(
        self,
        pass: int,
        pipeline: int,
        table: Seq<BindGroupLayoutEntry>,
        geometry: GeometryView,
        bindings: Seq<BindingResource>,
    ) -> Option<EntityError> {
        if 0 <= pass < self.passes.len() {
            self.passes[pass].entity_error(pipeline, table, geometry, bindings)
        } else {
            Some(EntityError::UnknownPipeline)
        }
    }
}

/// The render passes of a frame, in the order in which they are submitted.
#[derive(Debug)]
pub struct Renderer {
    passes: Vec<RenderPass>,
}

impl View for Renderer {
    type V = RendererView;

    closed spec fn view(&self) -> RendererView {
        RendererView { passes: self.passes@.map_values(|p: RenderPass| p@) }
    }
}

/// Appends the draws of the entities of `pipeline`.
fn push_draws(commands: &mut Vec<RenderCommand>, pass: usize, index: usize, pipeline: &Pipeline)
    ensures
        final(commands)@ == old(commands)@ + draw_commands(
            pass as int,
            index as int,
            pipeline@.entities,
        ),
{
    let n = pipeline.entity_count();
    let mut k: usize = 0;
    while k < n
        invariant
            n == pipeline@.entities.len(),
            k <= n,
            commands@ == old(commands)@ + draw_commands(
                pass as int,
                index as int,
                pipeline@.entities,
            ).take(k as int),
        decreases n - k,
    {
        let found = pipeline.entity(k);
        match found {
            Some(entity) => {
                let geometry = entity.geometry();
                commands.push(
                    RenderCommand::Draw {
                        entity: EntityId { pass, pipeline: index, entity: k },
                        geometry: geometry.id(),
                        index_count: geometry.index_count(),
                        instances: entity.n_instances(),
                    },
                );
                proof {
                    let draws = draw_commands(pass as int, index as int, pipeline@.entities);
                    assert(draws.take(k + 1) =~= draws.take(k as int).push(draws[k as int]));
                    assert(commands@ =~= old(commands)@ + draws.take(k + 1));
                }
            },
            None => {},
        }
        k = k + 1;
    }
    proof {
        let draws = draw_commands(pass as int, index as int, pipeline@.entities);
        assert(draws.take(n as int) =~= draws);
    }
}

/// Appends the commands of `pass`.
fn push_pass(commands: &mut Vec<RenderCommand>, index: usize, pass: &RenderPass)
    ensures
        final(commands)@ == old(commands)@ + pass_commands(index as int, pass@),
{
    commands.push(
        RenderCommand::BeginPass {
            pass: index,
            color: pass.color_attachment(),
            depth: pass.depth_attachment(),
        },
    );
    let ghost begun = commands@;
    let n = pass.pipeline_count();
    let mut j: usize = 0;
    while j < n
        invariant
            n == pass@.pipelines.len(),
            j <= n,
            commands@ == begun + pipelines_commands(index as int, pass@.pipelines, j as int),
        decreases n - j,
    {
        let found = pass.get_pipeline(j);
        match found {
            Some(pipeline) => {
                let ghost before = commands@;
                commands.push(RenderCommand::SetPipeline { pass: index, pipeline: j });
                push_draws(commands, index, j, pipeline);
                proof {
                    let set = seq![RenderCommand::SetPipeline { pass: index, pipeline: j }];
                    let draws = draw_commands(index as int, j as int, pipeline@.entities);
                    assert(commands@ =~= before + (set + draws));
                    assert(commands@ =~= begun + (pipelines_commands(
                        index as int,
                        pass@.pipelines,
                        j as int,
                    ) + pipeline_commands(index as int, j as int, pass@.pipelines[j as int])));
                }
            },
            None => {},
        }
        j = j + 1;
    }
    commands.push(RenderCommand::EndPass);
    proof {
        assert(commands@ =~= old(commands)@ + pass_commands(index as int, pass@));
    }
}

impl Renderer {
    /// A renderer without passes.
    pub fn new() -> (renderer: Renderer)
        ensures
            renderer@.passes == Seq::<RenderPassView>::empty(),
            renderer@.wf(),
    {
        let renderer = Renderer { passes: Vec::new() };
        assert(renderer@.passes =~= Seq::empty());
        renderer
    }

    /// Appends a pass and returns its index: the number of passes added
    /// before it. The pass is refused, and nothing changes, if one of its
    /// pipelines writes color or tests depth in another format than that of
    /// the attachment, or where the pass has no such attachment.
    pub fn add_render_pass(&mut self, pass: RenderPass) -> (result: Result<usize, PassError>)
        ensures
            match result {
                Ok(index) => {
                    &&& pass@.format_error_from(0) is None
                    &&& index == old(self)@.passes.len()
                    &&& final(self)@ == old(self)@.with_pass(pass@)
                },
                Err(error) => {
                    &&& pass@.format_error_from(0) == Some(error)
                    &&& final(self)@ == old(self)@
                },
            },
            old(self)@.wf() && pass@.wf() ==> final(self)@.wf(),
    {
        match pass.check_formats() {
            Ok(()) => {},
            Err(error) => {
                return Err(error);
            },
        }
        let index = self.passes.len();
        let ghost added = pass@;
        self.passes.push(pass);
        assert(self@.passes =~= old(self)@.passes.push(added));
        Ok(index)
    }

    /// Number of passes.
    pub fn pass_count(&self) -> (n: usize)
        ensures
            n == self@.passes.len(),
    {
        self.passes.len()
    }

    /// The pass that was added under `index`, if there is one.
    pub fn get_render_pass(&self, index: usize) -> (pass: Option<&RenderPass>)
        ensures
            index < self@.passes.len() ==> pass is Some && pass->0@ == self@.passes[index as int],
            index >= self@.passes.len() ==> pass is None,
    {
        if index < self.passes.len() {
            Some(&self.passes[index])
        } else {
            None
        }
    }

    /// Registers an entity with the pipeline at `pipeline` of the pass at
    /// `pass`; see [`Pipeline::add_entity`]. Returns where the entity is
    /// registered; on an error nothing changes.
    pub fn add_pipeline_entity(
        &mut self,
        pass: usize,
        pipeline: usize,
        resources: &Resources,
        geometry: &Geometry,
        bindings: BindingEntries,
        n_instances: u32,
    ) -> (result: Result<EntityId, EntityError>)
        ensures
            match result {
                Ok(id) => {
                    &&& old(self)@.entity_error(
                        pass as int,
                        pipeline as int,
                        resources@,
                        geometry@,
                        bindings@,
                    ) is None
                    &&& id == (EntityId {
                        pass,
                        pipeline,
                        entity: old(
                            self,
                        )@.passes[pass as int].pipelines[pipeline as int].entities.len() as usize,
                    })
                    &&& final(self)@ == old(self)@.with_entity(
                        pass as int,
                        pipeline as int,
                        EntityView { geometry: geometry@, bindings: bindings@, n_instances },
                    )
                },
                Err(error) => {
                    &&& old(self)@.entity_error(
                        pass as int,
                        pipeline as int,
                        resources@,
                        geometry@,
                        bindings@,
                    ) == Some(error)
                    &&& final(self)@ == old(self)@
                },
            },
            old(self)@.wf() ==> final(self)@.wf(),
            old(self)@.bound_in(resources@) ==> final(self)@.bound_in(resources@),
    {
        if pass >= self.passes.len() {
            return Err(EntityError::UnknownPipeline);
        }
        let ghost before = self@;
        let target = &mut self.passes[pass];
        let result = target.add_entity(pipeline, resources, geometry, bindings, n_instances);
        proof {
            let after = self@;
            assert(after.passes =~= before.passes.update(pass as int, after.passes[pass as int]));
            if result is Err {
                assert(after.passes =~= before.passes);
            }
            assert forall|i: int| 0 <= i < after.passes.len() implies (before.wf() ==> (
            #[trigger] after.passes[i]).wf() && after.passes[i].formats_agree()) && (
            before.bound_in(resources@) ==> after.passes[i].bound_in(resources@)) by {
                assert(before.wf() ==> before.passes[i].wf());
                assert(before.bound_in(resources@) ==> before.passes[i].bound_in(resources@));
            }
        }
        match result {
            Ok(entity) => Ok(EntityId { pass, pipeline, entity }),
            Err(error) => Err(error),
        }
    }

    /// The commands that draw a frame: for each pass in order, its
    /// attachments once, then each of its pipelines in order with one
    /// instanced draw per entity, and one submission at the end.
    pub fn commands(&self) -> (commands: Vec<RenderCommand>)
        ensures
            commands@ == self@.frame_commands(),
    {
        let mut commands: Vec<RenderCommand> = Vec::new();
        let n = self.passes.len();
        let mut i: usize = 0;
        while i < n
            invariant
                n == self@.passes.len(),
                n == self.passes@.len(),
                i <= n,
                commands@ == passes_commands(self@.passes, i as int),
            decreases n - i,
        {
            let pass = &self.passes[i];
            assert(pass@ == self@.passes[i as int]);
            push_pass(&mut commands, i, pass);
            i = i + 1;
        }
        commands.push(RenderCommand::Submit);
        commands
    }
}

/// An instanced draw: which entity is drawn, and how many instances of it.
#[derive(Clone, Copy, Debug, PartialEq, Eq, Structural)]
pub struct Drawn {
    pub entity: EntityId,
    pub instances: u32,
}

/// The instanced draws among `commands`, in order.
pub open spec fn drawn(commands: Seq<RenderCommand>) -> Seq<Drawn>
    decreases commands.len(),
{
    if commands.len() == 0 {
        Seq::empty()
    } else {
        let before = drawn(commands.drop_last());
        match commands.last() {
            RenderCommand::Draw { entity, instances, .. } => before.push(
                Drawn { entity, instances },
            ),
            _ => before,
        }
    }
}

/// The entities of one pipeline, each with its number of instances.
pub open spec fn registered_entities(pass: int, pipeline: int, entities: Seq<EntityView>) -> Seq<
    Drawn,
> {
    Seq::new(
        entities.len(),
        |k: int|
            Drawn {
                entity: EntityId {
                    pass: pass as usize,
                    pipeline: pipeline as usize,
                    entity: k as usize,
                },
                instances: entities[k].n_instances,
            },
    )
}

/// The entities of the first `count` pipelines of a pass, in order.
pub open spec fn registered_in_pipelines(
    pass: int,
    pipelines: Seq<PipelineView>,
    count: int,
) -> Seq<Drawn>
    decreases count,
{
    if count <= 0 {
        Seq::empty()
    } else {
        registered_in_pipelines(pass, pipelines, count - 1) + registered_entities(
            pass,
            count - 1,
            pipelines[count - 1].entities,
        )
    }
}

/// The entities of the first `count` passes, in order.
pub open spec fn registered_in_passes(passes: Seq<RenderPassView>, count: int) -> Seq<Drawn>
    decreases count,
{
    if count <= 0 {
        Seq::empty()
    } else {
        registered_in_passes(passes, count - 1) + registered_in_pipelines(
            count - 1,
            passes[count - 1].pipelines,
            passes[count - 1].pipelines.len() as int,
        )
    }
}

impl RendererView {
    /// Every registered entity with its number of instances, in the order of
    /// passes, pipelines and registration.
    pub open spec fn registered(self) -> Seq<Drawn> {
        registered_in_passes(self.passes, self.passes.len() as int)
    }
}

/// The draws among two runs of commands are those of the first followed by
/// those of the second.
pub proof fn lemma_drawn_concat(a: Seq<RenderCommand>, b: Seq<RenderCommand>)
    ensures
        drawn(a + b) == drawn(a) + drawn(b),
    decreases b.len(),
{
    if b.len() == 0 {
        assert(a + b =~= a);
        assert(drawn(a) + drawn(b) =~= drawn(a));
    } else {
        assert((a + b).drop_last() =~= a + b.drop_last());
        assert((a + b).last() == b.last());
        lemma_drawn_concat(a, b.drop_last());
        assert(drawn(a + b) =~= drawn(a) + drawn(b));
    }
}

/// The draws of a pipeline's entities are one per entity, with the entity's
/// number of instances.
proof fn lemma_drawn_entities(pass: int, pipeline: int, entities: Seq<EntityView>)
    ensures
        drawn(draw_commands(pass, pipeline, entities)) == registered_entities(
            pass,
            pipeline,
            entities,
        ),
    decreases entities.len(),
{
    let commands = draw_commands(pass, pipeline, entities);
    if entities.len() == 0 {
        assert(drawn(commands) =~= registered_entities(pass, pipeline, entities));
    } else {
        let fewer = entities.drop_last();
        assert(commands.drop_last() =~= draw_commands(pass, pipeline, fewer));
        lemma_drawn_entities(pass, pipeline, fewer);
        assert(drawn(commands) =~= registered_entities(pass, pipeline, entities));
    }
}

/// A single command that is no draw contributes no draw.
proof fn lemma_drawn_other(command: RenderCommand)
    requires
        !(command is Draw),
    ensures
        drawn(seq![command]) == Seq::<Drawn>::empty(),
{
    assert(seq![command].drop_last() =~= Seq::<RenderCommand>::empty());
    assert(drawn(seq![command]) =~= drawn(Seq::<RenderCommand>::empty()));
}

/// The draws of the first `count` pipelines of a pass are those of their
/// entities.
proof fn lemma_drawn_pipelines(pass: int, pipelines: Seq<PipelineView>, count: int)
    requires
        count <= pipelines.len(),
    ensures
        drawn(pipelines_commands(pass, pipelines, count)) == registered_in_pipelines(
            pass,
            pipelines,
            count,
        ),
    decreases count,
{
    if count > 0 {
        let set = seq![
            RenderCommand::SetPipeline { pass: pass as usize, pipeline: (count - 1) as usize },
        ];
        let draws = draw_commands(pass, count - 1, pipelines[count - 1].entities);
        lemma_drawn_pipelines(pass, pipelines, count - 1);
        lemma_drawn_concat(
            pipelines_commands(pass, pipelines, count - 1),
            pipeline_commands(pass, count - 1, pipelines[count - 1]),
        );
        lemma_drawn_concat(set, draws);
        lemma_drawn_other(set[0]);
        lemma_drawn_entities(pass, count - 1, pipelines[count - 1].entities);
        assert(drawn(set) + drawn(draws) =~= drawn(draws));
    }
}

/// The draws of a pass are those of the entities of its pipelines.
proof fn lemma_drawn_pass(index: int, pass: RenderPassView)
    ensures
        drawn(pass_commands(index, pass)) == registered_in_pipelines(
            index,
            pass.pipelines,
            pass.pipelines.len() as int,
        ),
{
    let begin = seq![
        RenderCommand::BeginPass {
            pass: index as usize,
            color: pass.color_attachment,
            depth: pass.depth_attachment,
        },
    ];
    let body = pipelines_commands(index, pass.pipelines, pass.pipelines.len() as int);
    let end = seq![RenderCommand::EndPass];
    lemma_drawn_concat(begin + body, end);
    lemma_drawn_concat(begin, body);
    lemma_drawn_other(begin[0]);
    lemma_drawn_other(end[0]);
    lemma_drawn_pipelines(index, pass.pipelines, pass.pipelines.len() as int);
    assert(drawn(begin) + drawn(body) + drawn(end) =~= drawn(body));
}

/// The draws of the first `count` passes are those of their entities.
proof fn lemma_drawn_passes(passes: Seq<RenderPassView>, count: int)
    requires
        count <= passes.len(),
    ensures
        drawn(passes_commands(passes, count)) == registered_in_passes(passes, count),
    decreases count,
{
    if count > 0 {
        lemma_drawn_passes(passes, count - 1);
        lemma_drawn_concat(
            passes_commands(passes, count - 1),
            pass_commands(count - 1, passes[count - 1]),
        );
        lemma_drawn_pass(count - 1, passes[count - 1]);
    }
}

/// A frame draws every registered entity exactly once, in the order of
/// passes, pipelines and registration, in one instanced draw of as many
/// instances as the entity was registered with; and it draws nothing else.
pub proof fn lemma_frame_draws_each_entity_once(renderer: RendererView)
    ensures
        drawn(renderer.frame_commands()) == renderer.registered(),
{
    let passes = passes_commands(renderer.passes, renderer.passes.len() as int);
    let submit = seq![RenderCommand::Submit];
    lemma_drawn_concat(passes, submit);
    lemma_drawn_other(submit[0]);
    lemma_drawn_passes(renderer.passes, renderer.passes.len() as int);
    assert(drawn(passes) + drawn(submit) =~= drawn(passes));
}

/// Bindings stay bound when more resources are created: if each binding of
/// each entity is the resource of `table` that was created for the layout at
/// its position, it still is so in a table that has grown.
pub proof fn lemma_bindings_stay_bound(
    renderer: RendererView,
    table: Seq<BindGroupLayoutEntry>,
    more: Seq<BindGroupLayoutEntry>,
)
    requires
        renderer.bound_in(table),
    ensures
        renderer.bound_in(table + more),
{
    let grown = table + more;
    assert forall|i: int| 0 <= i < renderer.passes.len() implies (
    #[trigger] renderer.passes[i]).bound_in(grown) by {
        let pass = renderer.passes[i];
        assert(pass.bound_in(table));
        assert forall|j: int| 0 <= j < pass.pipelines.len() implies (
        #[trigger] pass.pipelines[j]).bound_in(grown) by {
            let pipeline = pass.pipelines[j];
            assert(pipeline.bound_in(table));
            assert forall|k: int, b: int|
                0 <= k < pipeline.entities.len() && 0 <= b
                    < pipeline.layouts.len() implies resource_fits(
                #[trigger] pipeline.layouts[b],
                (#[trigger] pipeline.entities[k]).bindings[b],
                grown,
            ) by {
                let resource = pipeline.entities[k].bindings[b];
                assert(resource_fits(pipeline.layouts[b], resource, table));
                assert(grown[resource.id_spec() as int] == table[resource.id_spec() as int]);
            }
        }
    }
}

} // verus!
