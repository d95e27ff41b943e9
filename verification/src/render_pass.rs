//! Render passes: the attachments drawn into, and the pipelines that draw
//! into them, in order.

use crate::binding::{BindGroupLayoutEntry, BindingResource, Resources};
use crate::format::TextureFormat;
use crate::pipeline::{
    BindingEntries, EntityError, EntityView, Geometry, GeometryView, Pipeline, PipelineView,
};
use vstd::prelude::*;

verus! {

/// A view of a texture that a pass can draw into.
#[derive(Clone, Copy, Debug, PartialEq, Eq, Structural)]
pub struct TextureView {
    /// The number under which the view was created.
    pub id: usize,
    /// The format of the texture behind it.
    pub format: TextureFormat,
}

/// The target of an attachment.
#[derive(Clone, Copy, Debug, PartialEq, Eq, Structural)]
pub enum AttachmentView {
    /// A fixed texture view, such as a shadow map.
    Static(TextureView),
    /// The view of the frame of the swap chain that is current when the pass
    /// is submitted.
    Dynamic,
}

/// The format of the frames of the swap chain.
pub open spec fn swapchain_color_format() -> TextureFormat {
    TextureFormat::Bgra8UnormSrgb
}

impl AttachmentView {
    /// The format of the texture drawn into.
    pub open spec fn format_spec(self) -> TextureFormat {
        match self {
            AttachmentView::Static(view) => view.format,
            AttachmentView::Dynamic => swapchain_color_format(),
        }
    }

    /// The format of the texture drawn into; for the frame of the swap
    /// chain, the format of the swap chain.
    #[verifier::when_used_as_spec(format_spec)]
    pub fn format(self) -> (format: TextureFormat)
        ensures
            format == self.format_spec(),
    {
        match self {
            AttachmentView::Static(view) => view.format,
            AttachmentView::Dynamic => TextureFormat::Bgra8UnormSrgb,
        }
    }
}

/// A color with four channels in double precision, as bit patterns.
#[derive(Clone, Copy, Debug, PartialEq, Eq, Structural)]
pub struct Color {
    pub r: u64,
    pub g: u64,
    pub b: u64,
    pub a: u64,
}

/// What happens to a color attachment when a pass begins.
#[derive(Clone, Copy, Debug, PartialEq, Eq, Structural)]
pub enum ColorLoadOp {
    Clear(Color),
    Load,
}

/// What happens to a depth attachment when a pass begins; the depth it is
/// cleared to is a single-precision bit pattern.
#[derive(Clone, Copy, Debug, PartialEq, Eq, Structural)]
pub enum DepthLoadOp {
    Clear(u32),
    Load,
}

/// Load and store operations of a color attachment.
#[derive(Clone, Copy, Debug, PartialEq, Eq, Structural)]
pub struct ColorOperations {
    pub load: ColorLoadOp,
    /// Whether the result of the pass is kept.
    pub store: bool,
}

/// Load and store operations of a depth attachment.
#[derive(Clone, Copy, Debug, PartialEq, Eq, Structural)]
pub struct DepthOperations {
    pub load: DepthLoadOp,
    /// Whether the result of the pass is kept.
    pub store: bool,
}

/// The color attachment of a pass.
#[derive(Clone, Copy, Debug, PartialEq, Eq, Structural)]
pub struct ColorAttachment {
    pub view: AttachmentView,
    pub ops: ColorOperations,
}

/// The depth attachment of a pass.
#[derive(Clone, Copy, Debug, PartialEq, Eq, Structural)]
pub struct DepthAttachment {
    pub view: AttachmentView,
    pub ops: DepthOperations,
}

/// Which output of a pipeline disagrees with the pass.
#[derive(Clone, Copy, Debug, PartialEq, Eq, Structural)]
pub enum PassError {
    /// The pipeline at this index writes color of another format than the
    /// color attachment has, or exactly one of the two is missing.
    ColorFormat { pipeline: usize },
    /// The pipeline at this index tests depth of another format than the
    /// depth attachment has, or exactly one of the two is missing.
    DepthFormat { pipeline: usize },
}

/// The mathematical content of a [`RenderPass`].
pub struct RenderPassView {
    pub color_attachment: Option<ColorAttachment>,
    pub depth_attachment: Option<DepthAttachment>,
    /// The pipelines of the pass, in the order in which they were added.
    pub pipelines: Seq<PipelineView>,
}

impl RenderPassView {
    /// The format of the color attachment, if there is one.
    pub open spec fn color_format(self) -> Option<TextureFormat> {
        match self.color_attachment {
            Some(attachment) => Some(attachment.view.format_spec()),
            None => None,
        }
    }

    /// The format of the depth attachment, if there is one.
    pub open spec fn depth_format(self) -> Option<TextureFormat> {
        match self.depth_attachment {
            Some(attachment) => Some(attachment.view.format_spec()),
            None => None,
        }
    }

    /// Whether `pipeline` writes color exactly if the pass has a color
    /// attachment, and then in its format.
    pub open spec fn color_agrees(self, pipeline: PipelineView) -> bool {
        self.color_format() == match pipeline.color_state {
            Some(state) => Some(state.format),
            None => None,
        }
    }

    /// Whether `pipeline` tests depth exactly if the pass has a depth
    /// attachment, and then in its format.
    pub open spec fn depth_agrees(self, pipeline: PipelineView) -> bool {
        self.depth_format() == match pipeline.depth_state {
            Some(state) => Some(state.format),
            None => None,
        }
    }

    /// The first disagreement between the pass and one of its pipelines at
    /// or after `start`, color before depth.
    pub open spec fn format_error_from(self, start: int) -> Option<PassError>
        decreases self.pipelines.len() - start,
    {
        if start < 0 || start >= self.pipelines.len() {
            None
        } else if !self.color_agrees(self.pipelines[start]) {
            Some(PassError::ColorFormat { pipeline: start as usize })
        } else if !self.depth_agrees(self.pipelines[start]) {
            Some(PassError::DepthFormat { pipeline: start as usize })
        } else {
            self.format_error_from(start + 1)
        }
    }

    /// Whether the formats of every pipeline agree with the attachments.
    pub open spec fn formats_agree(self) -> bool {
        forall|j: int|
            0 <= j < self.pipelines.len() ==> self.color_agrees(#[trigger] self.pipelines[j])
                && self.depth_agrees(self.pipelines[j])
    }

    /// The invariant of a pass: each of its pipelines is well-formed.
    pub open spec fn wf(self) -> bool {
        forall|j: int| 0 <= j < self.pipelines.len() ==> (#[trigger] self.pipelines[j]).wf()
    }

    /// Whether each binding of each entity of the pass is the resource of
    /// `table` that was created for the layout at its position.
    pub open spec fn bound_in(self, table: Seq<BindGroupLayoutEntry>) -> bool {
        forall|j: int|
            0 <= j < self.pipelines.len() ==> (#[trigger] self.pipelines[j]).bound_in(table)
    }

    /// The error that keeps an entity from being registered with the
    /// pipeline at `index`, if there is one.
    pub open spec fn entity_error(
        self,
        index: int,
        table: Seq<BindGroupLayoutEntry>,
        geometry: GeometryView,
        bindings: Seq<BindingResource>,
    ) -> Option<EntityError> {
        if 0 <= index < self.pipelines.len() {
            self.pipelines[index].entity_error(table, geometry, bindings)
        } else {
            Some(EntityError::UnknownPipeline)
        }
    }

    /// This pass with one more pipeline.
    pub open spec fn with_pipeline(self, pipeline: PipelineView) -> RenderPassView {
        RenderPassView { pipelines: self.pipelines.push(pipeline), ..self }
    }

    /// This pass after the pipelines of `added` were added to it one after
    /// the other.
    pub open spec fn with_pipelines(self, added: Seq<PipelineView>) -> RenderPassView
        decreases added.len(),
    {
        if added.len() == 0 {
            self
        } else {
            self.with_pipelines(added.drop_last()).with_pipeline(added.last())
        }
    }

    /// This pass with one more entity in the pipeline at `index`.
    pub open spec fn with_entity(self, index: int, entity: EntityView) -> RenderPassView {
        RenderPassView {
            pipelines: self.pipelines.update(index, self.pipelines[index].with_entity(entity)),
            ..self
        }
    }
}

/// No disagreement is found exactly if all formats agree.
pub proof fn lemma_format_error_from(pass: RenderPassView, start: int)
    requires
        0 <= start,
    ensures
        pass.format_error_from(start) is None <==> forall|j: int|
            start <= j < pass.pipelines.len() ==> pass.color_agrees(#[trigger] pass.pipelines[j])
                && pass.depth_agrees(pass.pipelines[j]),
    decreases pass.pipelines.len() - start,
{
    if start < pass.pipelines.len() {
        lemma_format_error_from(pass, start + 1);
        if pass.color_agrees(pass.pipelines[start]) && pass.depth_agrees(pass.pipelines[start]) {
            assert forall|j: int| start <= j < pass.pipelines.len() && (forall|j: int|
                start + 1 <= j < pass.pipelines.len() ==> pass.color_agrees(
                    #[trigger] pass.pipelines[j],
                ) && pass.depth_agrees(pass.pipelines[j])) implies pass.color_agrees(
                #[trigger] pass.pipelines[j],
            ) && pass.depth_agrees(pass.pipelines[j]) by {
                if j > start {
                    assert(start + 1 <= j);
                }
            }
        }
    }
}

/// A set of attachments and the pipelines that draw into them.
#[derive(Debug)]
pub struct RenderPass {
    color_attachment: Option<ColorAttachment>,
    depth_attachment: Option<DepthAttachment>,
    pipelines: Vec<Pipeline>,
}

impl View for RenderPass {
    type V = RenderPassView;

    closed spec fn view(&self) -> RenderPassView {
        RenderPassView {
            color_attachment: self.color_attachment,
            depth_attachment: self.depth_attachment,
            pipelines: self.pipelines@.map_values(|p: Pipeline| p@),
        }
    }
}

impl RenderPass {
    /// A pass without attachments and without pipelines.
    pub fn new() -> (pass: RenderPass)
        ensures
            pass@ == (RenderPassView {
                color_attachment: None,
                depth_attachment: None,
                pipelines: Seq::empty(),
            }),
            pass@.wf(),
    {
        let pass =
            RenderPass { color_attachment: None, depth_attachment: None, pipelines: Vec::new() };
        assert(pass@.pipelines =~= Seq::empty());
        pass
    }

    /// Makes `view` the color attachment, loaded and stored as `ops` says.
    pub fn set_color_attachment(&mut self, view: AttachmentView, ops: ColorOperations)
        ensures
            final(self)@ == (RenderPassView {
                color_attachment: Some(ColorAttachment { view, ops }),
                ..old(self)@
            }),
    {
        self.color_attachment = Some(ColorAttachment { view, ops });
    }

    /// Makes `view` the depth attachment, loaded and stored as `ops` says.
    pub fn set_depth_attachment(&mut self, view: AttachmentView, ops: DepthOperations)
        ensures
            final(self)@ == (RenderPassView {
                depth_attachment: Some(DepthAttachment { view, ops }),
                ..old(self)@
            }),
    {
        self.depth_attachment = Some(DepthAttachment { view, ops });
    }

    /// The color attachment, if one is set.
    pub fn color_attachment(&self) -> (attachment: Option<ColorAttachment>)
        ensures
            attachment == self@.color_attachment,
    {
        self.color_attachment
    }

    /// The depth attachment, if one is set.
    pub fn depth_attachment(&self) -> (attachment: Option<DepthAttachment>)
        ensures
            attachment == self@.depth_attachment,
    {
        self.depth_attachment
    }

    /// Appends a pipeline and returns its index: the number of pipelines
    /// added before it.
    pub fn add_pipeline(&mut self, pipeline: Pipeline) -> (index: usize)
        ensures
            index == old(self)@.pipelines.len(),
            final(self)@ == old(self)@.with_pipeline(pipeline@),
            old(self)@.wf() && pipeline@.wf() ==> final(self)@.wf(),
    {
        let index = self.pipelines.len();
        let ghost added = pipeline@;
        self.pipelines.push(pipeline);
        assert(self@.pipelines =~= old(self)@.pipelines.push(added));
        index
    }

    /// Number of pipelines.
    pub fn pipeline_count(&self) -> (n: usize)
        ensures
            n == self@.pipelines.len(),
    {
        self.pipelines.len()
    }

    /// The pipeline that was added under `index`, if there is one.
    pub fn get_pipeline(&self, index: usize) -> (pipeline: Option<&Pipeline>)
        ensures
            index < self@.pipelines.len() ==> pipeline is Some && pipeline->0@
                == self@.pipelines[index as int],
            index >= self@.pipelines.len() ==> pipeline is None,
    {
        if index < self.pipelines.len() {
            Some(&self.pipelines[index])
        } else {
            None
        }
    }

    /// Checks that every pipeline writes color and tests depth in the
    /// formats of the attachments, and reports the first that does not.
    pub fn check_formats(&self) -> (result: Result<(), PassError>)
        ensures
            match result {
                Ok(()) => self@.format_error_from(0) is None && self@.formats_agree(),
                Err(error) => self@.format_error_from(0) == Some(error),
            },
    {
        let color = match self.color_attachment {
            Some(attachment) => Some(attachment.view.format()),
            None => None,
        };
        let depth = match self.depth_attachment {
            Some(attachment) => Some(attachment.view.format()),
            None => None,
        };
        let mut j: usize = 0;
        while j < self.pipelines.len()
            invariant
                j <= self.pipelines@.len(),
                color == self@.color_format(),
                depth == self@.depth_format(),
                self@.format_error_from(0) == self@.format_error_from(j as int),
            decreases self.pipelines@.len() - j,
        {
            let pipeline = &self.pipelines[j];
            assert(pipeline@ == self@.pipelines[j as int]);
            let writes = match pipeline.color_state() {
                Some(state) => Some(state.format),
                None => None,
            };
            if writes != color {
                assert(self@.format_error_from(j as int) == Some(
                    PassError::ColorFormat { pipeline: j },
                ));
                return Err(PassError::ColorFormat { pipeline: j });
            }
            let tests = match pipeline.depth_state() {
                Some(state) => Some(state.format),
                None => None,
            };
            if tests != depth {
                assert(self@.format_error_from(j as int) == Some(
                    PassError::DepthFormat { pipeline: j },
                ));
                return Err(PassError::DepthFormat { pipeline: j });
            }
            j = j + 1;
        }
        proof {
            lemma_format_error_from(self@, 0);
        }
        Ok(())
    }

    /// Registers an entity with the pipeline at `index`; see
    /// [`Pipeline::add_entity`]. Without such a pipeline nothing changes.
    pub fn add_entity(
        &mut self,
        index: usize,
        resources: &Resources,
        geometry: &Geometry,
        bindings: BindingEntries,
        n_instances: u32,
    ) -> (result: Result<usize, EntityError>)
        ensures
            match result {
                Ok(entity) => {
                    &&& old(self)@.entity_error(index as int, resources@, geometry@, bindings@)
                        is None
                    &&& entity == old(self)@.pipelines[index as int].entities.len()
                    &&& final(self)@ == old(self)@.with_entity(
                        index as int,
                        EntityView { geometry: geometry@, bindings: bindings@, n_instances },
                    )
                },
                Err(error) => {
                    &&& old(self)@.entity_error(index as int, resources@, geometry@, bindings@)
                        == Some(error)
                    &&& final(self)@ == old(self)@
                },
            },
            old(self)@.wf() ==> final(self)@.wf(),
            old(self)@.formats_agree() ==> final(self)@.formats_agree(),
            old(self)@.bound_in(resources@) ==> final(self)@.bound_in(resources@),
    {
        if index >= self.pipelines.len() {
            return Err(EntityError::UnknownPipeline);
        }
        let ghost before = self@;
        let pipeline = &mut self.pipelines[index];
        let result = pipeline.add_entity(resources, geometry, bindings, n_instances);
        proof {
            let after = self@;
            assert(after.pipelines =~= before.pipelines.update(
                index as int,
                after.pipelines[index as int],
            ));
            if result is Err {
                assert(after.pipelines =~= before.pipelines);
            }
            assert forall|j: int| 0 <= j < after.pipelines.len() implies (before.wf() ==> (
            #[trigger] after.pipelines[j]).wf()) && (before.formats_agree() ==> after.color_agrees(
                after.pipelines[j],
            ) && after.depth_agrees(after.pipelines[j])) && (before.bound_in(resources@)
                ==> after.pipelines[j].bound_in(resources@)) by {
                assert(before.wf() ==> before.pipelines[j].wf());
                assert(before.formats_agree() ==> before.color_agrees(before.pipelines[j]));
                assert(before.bound_in(resources@) ==> before.pipelines[j].bound_in(resources@));
            }
        }
        result
    }
}

/// Adding pipelines one after the other appends them in that order and
/// changes nothing else.
pub proof fn lemma_with_pipelines(pass: RenderPassView, added: Seq<PipelineView>)
    ensures
        pass.with_pipelines(added) == (RenderPassView {
            pipelines: pass.pipelines + added,
            ..pass
        }),
    decreases added.len(),
{
    if added.len() == 0 {
        assert(pass.pipelines + added =~= pass.pipelines);
    } else {
        lemma_with_pipelines(pass, added.drop_last());
        assert((pass.pipelines + added.drop_last()).push(added.last()) =~= pass.pipelines + added);
    }
}

/// The indices that `add_pipeline` returns count up by one, from 0 in a new
/// pass: the pipeline added as the `k`-th after those of `pass` gets the
/// index `pass.pipelines.len() + k`. And an index keeps naming its pipeline
/// however many are added after it.
pub proof fn lemma_pipeline_indices(pass: RenderPassView, added: Seq<PipelineView>, k: int)
    requires
        0 <= k < added.len(),
    ensures
        pass.with_pipelines(added.take(k)).pipelines.len() == pass.pipelines.len() + k,
        pass.with_pipelines(added).pipelines.len() == pass.pipelines.len() + added.len(),
        pass.with_pipelines(added).pipelines[pass.pipelines.len() + k] == added[k],
{
    lemma_with_pipelines(pass, added.take(k));
    lemma_with_pipelines(pass, added);
}

/// Registering an entity under the index of a pipeline adds it to that
/// pipeline and leaves the other pipelines, and the attachments, as they
/// are.
pub proof fn lemma_entity_goes_to_its_pipeline(
    pass: RenderPassView,
    index: int,
    entity: EntityView,
    other: int,
)
    requires
        0 <= index < pass.pipelines.len(),
        0 <= other < pass.pipelines.len(),
    ensures
        pass.with_entity(index, entity).pipelines.len() == pass.pipelines.len(),
        pass.with_entity(index, entity).pipelines[index] == pass.pipelines[index].with_entity(
            entity,
        ),
        other != index ==> pass.with_entity(index, entity).pipelines[other]
            == pass.pipelines[other],
        pass.with_entity(index, entity).color_attachment == pass.color_attachment,
        pass.with_entity(index, entity).depth_attachment == pass.depth_attachment,
{
}

} // verus!
