//! Shaders and render pipelines.

use crate::buffer::IndexFormat;
use crate::context::{Context, ContextView};
use crate::driver::{Handle, Request, RequestView, ResourceKind};
use crate::graphics_state::SurfaceFormat;
use crate::pass::{CommandView, Pass};
use crate::vertex::{Layout, LayoutView, Vertex};
use vstd::prelude::*;

verus! {

/// How vertices are assembled into primitives.
#[derive(Clone, Copy, Debug, PartialEq, Eq, Structural)]
pub enum PrimitiveTopology {
    TriangleList,
}

/// Which winding makes a triangle face the viewer.
#[derive(Clone, Copy, Debug, PartialEq, Eq, Structural)]
pub enum FrontFace {
    Ccw,
    Cw,
}

/// One side of a triangle.
#[derive(Clone, Copy, Debug, PartialEq, Eq, Structural)]
pub enum Face {
    Front,
    Back,
}

/// How the inside of a polygon is drawn.
#[derive(Clone, Copy, Debug, PartialEq, Eq, Structural)]
pub enum PolygonMode {
    Fill,
}

/// How a fragment's color is combined with what the target holds.
#[derive(Clone, Copy, Debug, PartialEq, Eq, Structural)]
pub enum BlendState {
    /// The fragment's color and alpha replace the target's.
    Replace,
}

/// The channels of the target that a pipeline writes.
#[derive(Clone, Copy, Debug, PartialEq, Eq, Structural)]
pub struct ColorWrites {
    pub red: bool,
    pub green: bool,
    pub blue: bool,
    pub alpha: bool,
}

/// How primitives are assembled and rasterized.
#[derive(Clone, Copy, Debug, PartialEq, Eq, Structural)]
pub struct PrimitiveState {
    pub topology: PrimitiveTopology,
    pub strip_index_format: Option<IndexFormat>,
    pub front_face: FrontFace,
    pub cull_mode: Option<Face>,
    pub unclipped_depth: bool,
    pub polygon_mode: PolygonMode,
    pub conservative: bool,
}

/// How many samples a pixel has, and which of them are written.
#[derive(Clone, Copy, Debug, PartialEq, Eq, Structural)]
pub struct MultisampleState {
    pub count: u32,
    pub mask: u64,
    pub alpha_to_coverage_enabled: bool,
}

/// The one color target of a pipeline.
#[derive(Clone, Copy, Debug, PartialEq, Eq, Structural)]
pub struct ColorTargetState {
    pub format: SurfaceFormat,
    pub blend: Option<BlendState>,
    pub write_mask: ColorWrites,
}

/// What the driver needs to know to create a render pipeline.
#[derive(Debug, PartialEq, Eq)]
pub struct RenderPipelineDescriptor {
    /// The pipeline layout.
    pub layout: Handle,
    /// The shader module of both stages.
    pub module: Handle,
    pub vertex_entry_point: &'static str,
    /// The vertex streams, in slot order.
    pub buffers: Vec<Layout>,
    pub primitive: PrimitiveState,
    /// Whether there is a depth and stencil state.
    pub depth_stencil: bool,
    pub multisample: MultisampleState,
    pub fragment_entry_point: &'static str,
    pub target: ColorTargetState,
    /// How many layers the attachments have where the pipeline is used
    /// with a multiview pass.
    pub multiview: Option<u32>,
}

/// A [`RenderPipelineDescriptor`] as a value of specifications.
pub struct RenderPipelineDescriptorView {
    pub layout: Handle,
    pub module: Handle,
    pub vertex_entry_point: Seq<char>,
    pub buffers: Seq<LayoutView>,
    pub primitive: PrimitiveState,
    pub depth_stencil: bool,
    pub multisample: MultisampleState,
    pub fragment_entry_point: Seq<char>,
    pub target: ColorTargetState,
    pub multiview: Option<u32>,
}

/// The views of `layouts`, in order.
pub open spec fn layout_views(layouts: Seq<Layout>) -> Seq<LayoutView> {
    Seq::new(layouts.len(), |i: int| layouts[i]@)
}

impl View for RenderPipelineDescriptor {
    type V = RenderPipelineDescriptorView;

    open spec fn view(&self) -> RenderPipelineDescriptorView {
        RenderPipelineDescriptorView {
            layout: self.layout,
            module: self.module,
            vertex_entry_point: self.vertex_entry_point@,
            buffers: layout_views(self.buffers@),
            primitive: self.primitive,
            depth_stencil: self.depth_stencil,
            multisample: self.multisample,
            fragment_entry_point: self.fragment_entry_point@,
            target: self.target,
            multiview: self.multiview,
        }
    }
}

/// A compiled shader module. Its source must define the entry points
/// `vs_main` and `fs_main`; nothing here checks that it does.
#[derive(Debug, PartialEq, Eq)]
pub struct Shader {
    id: Handle,
}

impl Shader {
    /// The handle of the shader module.
    pub closed spec fn handle(&self) -> Handle {
        self.id
    }

    /// Asks the driver to compile `src`.
    pub fn new(ctx: &mut Context, src: String) -> (shader: Shader)
        ensures
            shader.handle() == old(ctx)@.next_handle(),
            final(ctx)@ == old(ctx)@.issue(ResourceKind::ShaderModule).enqueue(
                RequestView::CreateShaderModule { id: shader.handle(), source: src@ },
            ),
    {
        let id = ctx.issue(ResourceKind::ShaderModule);
        ctx.enqueue(Request::CreateShaderModule { id, source: src });
        Shader { id }
    }

    /// The handle of the shader module.
    pub fn id(&self) -> (id: Handle)
        ensures
            id == self.handle(),
    {
        self.id
    }
}

/// What a [`PipelineBuilder`] holds.
pub struct PipelineBuilderView {
    pub shader: Handle,
    /// The vertex streams, in slot order.
    pub buffers: Seq<LayoutView>,
    /// The bind group layouts; the position of each is its group index.
    pub bind_group_layouts: Seq<Handle>,
}

impl PipelineBuilderView {
    /// This builder after one more vertex stream has been declared.
    pub open spec fn with_layout(self, layout: LayoutView) -> PipelineBuilderView {
        PipelineBuilderView { buffers: self.buffers.push(layout), ..self }
    }

    /// This builder after one more bind group was built against it.
    pub open spec fn with_bind_group_layout(self, layout: Handle) -> PipelineBuilderView {
        PipelineBuilderView {
            bind_group_layouts: self.bind_group_layouts.push(layout),
            ..self
        }
    }

    /// This builder after bind groups with `layouts` were built against it
    /// one after the other.
    pub open spec fn with_bind_group_layouts(self, layouts: Seq<Handle>) -> PipelineBuilderView
        decreases layouts.len(),
    {
        if layouts.len() == 0 {
            self
        } else {
            self.with_bind_group_layouts(layouts.drop_last()).with_bind_group_layout(
                layouts.last(),
            )
        }
    }
}

/// A builder that bind groups with `layouts` were built against, one after
/// the other, holds one more layout for each of them, in the order of the
/// builds and behind those it held before; its shader and its vertex
/// streams are as they were.
pub proof fn lemma_builds_accumulate_in_call_order(builder: PipelineBuilderView, layouts: Seq<Handle>)
    ensures
        builder.with_bind_group_layouts(layouts).bind_group_layouts == builder.bind_group_layouts
            + layouts,
        builder.with_bind_group_layouts(layouts).bind_group_layouts.len()
            == builder.bind_group_layouts.len() + layouts.len(),
        builder.with_bind_group_layouts(layouts).shader == builder.shader,
        builder.with_bind_group_layouts(layouts).buffers == builder.buffers,
    decreases layouts.len(),
{
    if layouts.len() > 0 {
        lemma_builds_accumulate_in_call_order(builder, layouts.drop_last());
    }
}

/// The group index of a bind group is the position of its build among the
/// builds against the pipeline's builder: where bind groups with `layouts`
/// were built one after the other against a builder, the pipeline layout
/// that the builder asks for has the layout of build `i` at the group index
/// that follows those the builder held before, plus `i`. So the bind
/// groups, attached in the order in which they were built, each meet their
/// own layout.
pub proof fn lemma_group_index_is_build_order(
    ctx: ContextView,
    builder: PipelineBuilderView,
    layouts: Seq<Handle>,
    i: int,
)
    requires
        0 <= i < layouts.len(),
    ensures
        pipeline_requests(ctx, builder.with_bind_group_layouts(layouts)).pending[ctx.pending.len() as int]
            matches RequestView::CreatePipelineLayout { bind_group_layouts, .. }
            && bind_group_layouts.len() == builder.bind_group_layouts.len() + layouts.len()
            && bind_group_layouts[builder.bind_group_layouts.len() + i] == layouts[i],
{
    lemma_builds_accumulate_in_call_order(builder, layouts);
}

/// The fixed state of every pipeline: triangle lists, counter-clockwise
/// front faces, back faces culled, filled polygons.
pub open spec fn fixed_primitive_state() -> PrimitiveState {
    PrimitiveState {
        topology: PrimitiveTopology::TriangleList,
        strip_index_format: None,
        front_face: FrontFace::Ccw,
        cull_mode: Some(Face::Back),
        unclipped_depth: false,
        polygon_mode: PolygonMode::Fill,
        conservative: false,
    }
}

/// The fixed state of every pipeline: one sample per pixel, always written.
pub open spec fn fixed_multisample_state() -> MultisampleState {
    MultisampleState { count: 1, mask: u64::MAX, alpha_to_coverage_enabled: false }
}

/// The one color target: the surface's format, the fragment's color
/// replacing what is there, every channel written.
pub open spec fn fixed_color_target(format: SurfaceFormat) -> ColorTargetState {
    ColorTargetState {
        format,
        blend: Some(BlendState::Replace),
        write_mask: ColorWrites { red: true, green: true, blue: true, alpha: true },
    }
}

/// The descriptor of the pipeline that `builder` stands for, with the
/// pipeline layout `layout` and a surface of `format`.
pub open spec fn pipeline_descriptor(
    builder: PipelineBuilderView,
    layout: Handle,
    format: SurfaceFormat,
) -> RenderPipelineDescriptorView {
    RenderPipelineDescriptorView {
        layout,
        module: builder.shader,
        vertex_entry_point: "vs_main"@,
        buffers: builder.buffers,
        primitive: fixed_primitive_state(),
        depth_stencil: false,
        multisample: fixed_multisample_state(),
        fragment_entry_point: "fs_main"@,
        target: fixed_color_target(format),
        multiview: None,
    }
}

/// Collects what a pipeline is made of: one shader, the vertex streams in
/// slot order, and the layouts of the bind groups built against it, in the
/// order in which they were built.
pub struct PipelineBuilder<'a> {
    shader: &'a Shader,
    buffers: Vec<Layout>,
    bind_group_layouts: Vec<Handle>,
}

impl<'a> View for PipelineBuilder<'a> {
    type V = PipelineBuilderView;

    closed spec fn view(&self) -> PipelineBuilderView {
        PipelineBuilderView {
            shader: self.shader.handle(),
            buffers: layout_views(self.buffers@),
            bind_group_layouts: self.bind_group_layouts@,
        }
    }
}

impl<'a> PipelineBuilder<'a> {
    /// A builder for a pipeline that runs `shader`, with no vertex stream
    /// and no bind group yet.
    pub fn new(shader: &'a Shader) -> (builder: PipelineBuilder<'a>)
        ensures
            builder@ == (PipelineBuilderView {
                shader: shader.handle(),
                buffers: Seq::<LayoutView>::empty(),
                bind_group_layouts: Seq::<Handle>::empty(),
            }),
    {
        let builder = PipelineBuilder {
            shader,
            buffers: Vec::new(),
            bind_group_layouts: Vec::new(),
        };
        assert(builder@.buffers =~= Seq::<LayoutView>::empty());
        builder
    }

    /// Declares the next vertex stream: `layout` goes to the slot after the
    /// last one declared.
    pub fn with_layout(self, layout: Layout) -> (builder: PipelineBuilder<'a>)
        ensures
            builder@ == self@.with_layout(layout@),
    {
        let mut builder = self;
        builder.buffers.push(layout);
        assert(builder@.buffers =~= self@.buffers.push(layout@));
        builder
    }

    /// Declares the next vertex stream as records of type `T`. The layout is
    /// the one that `T` gives of itself.
    pub fn with_vertex<T: Vertex>(self) -> (builder: PipelineBuilder<'a>)
        ensures
            builder@.shader == self@.shader,
            builder@.bind_group_layouts == self@.bind_group_layouts,
            builder@.buffers.len() == self@.buffers.len() + 1,
            builder@.buffers.drop_last() == self@.buffers,
    {
        let builder = self.with_layout(T::layout());
        builder
    }

    /// Records that a bind group with `layout` was built against this
    /// builder: it gets the group index after the last one recorded.
    pub(crate) fn with_bind_group_layout(&mut self, layout: Handle)
        ensures
            final(self)@ == old(self)@.with_bind_group_layout(layout),
    {
        self.bind_group_layouts.push(layout);
    }

    /// Asks the driver for the pipeline, and ends the builder.
    pub fn build(self, ctx: &mut Context) -> (pipeline: Pipeline)
        ensures
            pipeline@ == (PipelineView {
                id: old(ctx)@.issue(ResourceKind::PipelineLayout).next_handle(),
                layout: old(ctx)@.next_handle(),
                bind_group_layouts: self@.bind_group_layouts,
            }),
            final(ctx)@ == pipeline_requests(old(ctx)@, self@),
    {
        let format = ctx.format();
        Pipeline::new(ctx, format, self)
    }
}

/// The context `ctx` after the pipeline that `builder` stands for was asked
/// of the driver: first the pipeline layout, with the bind group layouts in
/// the order of the builder, then the pipeline itself.
pub open spec fn pipeline_requests_for(
    ctx: ContextView,
    builder: PipelineBuilderView,
    format: SurfaceFormat,
) -> ContextView {
    let layout = ctx.next_handle();
    let with_layout = ctx.issue(ResourceKind::PipelineLayout).enqueue(
        RequestView::CreatePipelineLayout {
            id: layout,
            bind_group_layouts: builder.bind_group_layouts,
        },
    );
    with_layout.issue(ResourceKind::RenderPipeline).enqueue(
        RequestView::CreateRenderPipeline {
            id: with_layout.next_handle(),
            descriptor: pipeline_descriptor(builder, layout, format),
        },
    )
}

/// [`pipeline_requests_for`] with the format of the context's own surface.
pub open spec fn pipeline_requests(ctx: ContextView, builder: PipelineBuilderView) -> ContextView {
    pipeline_requests_for(ctx, builder, ctx.format)
}

/// What a [`Pipeline`] holds.
pub struct PipelineView {
    pub id: Handle,
    /// The pipeline layout.
    pub layout: Handle,
    /// The bind group layouts; the position of each is its group index.
    pub bind_group_layouts: Seq<Handle>,
}

/// A render pipeline: one shader, its vertex streams and its bind group
/// layouts, fixed for good.
#[derive(Debug, PartialEq, Eq)]
pub struct Pipeline {
    id: Handle,
    layout: Handle,
    bind_group_layouts: Vec<Handle>,
}

impl View for Pipeline {
    type V = PipelineView;

    closed spec fn view(&self) -> PipelineView {
        PipelineView {
            id: self.id,
            layout: self.layout,
            bind_group_layouts: self.bind_group_layouts@,
        }
    }
}

impl Pipeline {
    fn new(ctx: &mut Context, format: SurfaceFormat, builder: PipelineBuilder) -> (pipeline:
        Pipeline)
        ensures
            pipeline@ == (PipelineView {
                id: old(ctx)@.issue(ResourceKind::PipelineLayout).next_handle(),
                layout: old(ctx)@.next_handle(),
                bind_group_layouts: builder@.bind_group_layouts,
            }),
            final(ctx)@ == pipeline_requests_for(old(ctx)@, builder@, format),
    {
        let mut group_layouts: Vec<Handle> = Vec::new();
        let mut i: usize = 0;
        while i < builder.bind_group_layouts.len()
            invariant
                i <= builder.bind_group_layouts@.len(),
                group_layouts@ == builder.bind_group_layouts@.take(i as int),
            decreases builder.bind_group_layouts@.len() - i,
        {
            group_layouts.push(builder.bind_group_layouts[i]);
            i = i + 1;
        }
        assert(group_layouts@ =~= builder.bind_group_layouts@);
        let layout = ctx.issue(ResourceKind::PipelineLayout);
        ctx.enqueue(Request::CreatePipelineLayout { id: layout, bind_group_layouts: group_layouts });
        let id = ctx.issue(ResourceKind::RenderPipeline);
        let descriptor = RenderPipelineDescriptor {
            layout,
            module: builder.shader.id(),
            vertex_entry_point: "vs_main",
            buffers: builder.buffers,
            primitive: PrimitiveState {
                topology: PrimitiveTopology::TriangleList,
                strip_index_format: None,
                front_face: FrontFace::Ccw,
                cull_mode: Some(Face::Back),
                unclipped_depth: false,
                polygon_mode: PolygonMode::Fill,
                conservative: false,
            },
            depth_stencil: false,
            multisample: MultisampleState {
                count: 1,
                mask: u64::MAX,
                alpha_to_coverage_enabled: false,
            },
            fragment_entry_point: "fs_main",
            target: ColorTargetState {
                format,
                blend: Some(BlendState::Replace),
                write_mask: ColorWrites { red: true, green: true, blue: true, alpha: true },
            },
            multiview: None,
        };
        ctx.enqueue(Request::CreateRenderPipeline { id, descriptor });
        Pipeline { id, layout, bind_group_layouts: builder.bind_group_layouts }
    }

    /// Records in `pass` that the draws that follow use this pipeline.
    pub fn attach<'a>(&'a self, pass: &mut Pass<'a>)
        ensures
            final(pass)@ == old(pass)@.record(CommandView::SetPipeline { pipeline: self@.id }),
            *final(final(pass).record) == *final(old(pass).record),
    {
        pass.set_pipeline(self);
    }

    /// The handle of the pipeline.
    pub fn id(&self) -> (id: Handle)
        ensures
            id == self@.id,
    {
        self.id
    }

    /// The bind group layouts of the pipeline; the position of each is its
    /// group index.
    pub fn bind_group_layouts(&self) -> (layouts: &Vec<Handle>)
        ensures
            layouts@ == self@.bind_group_layouts,
    {
        &self.bind_group_layouts
    }
}

} // verus!
