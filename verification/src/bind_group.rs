//! Bind groups: ordered sets of resources that a shader reads.

use crate::buffer::UniformBuffer;
use crate::context::{Context, ContextView};
use crate::driver::{Handle, Request, RequestView, ResourceKind};
use crate::pass::{CommandView, Pass};
use crate::pipeline::PipelineBuilder;
use crate::texture::{Sampler, Texture2D};
use crate::DynamicOffset;
use vstd::prelude::*;

verus! {

/// The shader stages that can see a binding.
#[derive(Clone, Copy, Debug, PartialEq, Eq, Structural)]
pub struct ShaderStages {
    pub vertex: bool,
    pub fragment: bool,
}

/// What kind of resource a binding holds, as the shader declares it.
#[derive(Clone, Copy, Debug, PartialEq, Eq, Structural)]
pub enum BindingType {
    /// A uniform buffer.
    UniformBuffer { has_dynamic_offset: bool, min_binding_size: Option<u64> },
    /// A two-dimensional texture sampled as floats.
    SampledTexture { filterable: bool, multisampled: bool },
    /// A sampler that may filter.
    FilteringSampler,
}

/// The handle that fills a binding.
#[derive(Clone, Copy, Debug, PartialEq, Eq, Structural)]
pub enum BindingResource {
    /// A whole buffer.
    Buffer(Handle),
    TextureView(Handle),
    Sampler(Handle),
}

/// One binding of a bind group layout.
#[derive(Clone, Copy, Debug, PartialEq, Eq, Structural)]
pub struct BindGroupLayoutEntry {
    pub binding: u32,
    pub visibility: ShaderStages,
    pub ty: BindingType,
    /// The length of the binding where it is an array.
    pub count: Option<u32>,
}

/// One binding of a bind group.
#[derive(Clone, Copy, Debug, PartialEq, Eq, Structural)]
pub struct Binding {
    pub binding: u32,
    pub resource: BindingResource,
}

/// What a resource brings to the binding it fills.
#[derive(Clone, Copy, Debug, PartialEq, Eq, Structural)]
pub struct Slot {
    pub visibility: ShaderStages,
    pub ty: BindingType,
    pub resource: BindingResource,
}

/// Anything that can fill a binding of a bind group. The three answers
/// depend on the resource alone.
pub trait BindGroupEntry {
    /// The stages that see the resource.
    spec fn stages(&self) -> ShaderStages;

    /// The kind of binding that the resource fills.
    spec fn kind(&self) -> BindingType;

    /// The handle that the binding holds.
    spec fn bound(&self) -> BindingResource;

    fn visibility(&self) -> (visibility: ShaderStages)
        ensures
            visibility == self.stages(),
    ;

    fn binding_type(&self) -> (ty: BindingType)
        ensures
            ty == self.kind(),
    ;

    fn resource(&self) -> (resource: BindingResource)
        ensures
            resource == self.bound(),
    ;
}

/// What `entry` brings to the binding it fills.
pub open spec fn slot_of<T: BindGroupEntry>(entry: &T) -> Slot {
    Slot { visibility: entry.stages(), ty: entry.kind(), resource: entry.bound() }
}

/// What a [`BindGroup`] holds.
pub struct BindGroupView {
    pub id: Handle,
    pub layout: Handle,
}

/// A set of resources bound together, as the driver created it.
#[derive(Debug, PartialEq, Eq)]
pub struct BindGroup {
    id: Handle,
    layout: Handle,
}

impl View for BindGroup {
    type V = BindGroupView;

    closed spec fn view(&self) -> BindGroupView {
        BindGroupView { id: self.id, layout: self.layout }
    }
}

impl BindGroup {
    /// Records in `pass` that the draws that follow read group `index` from
    /// this bind group, with `offsets` for its dynamic bindings. The index
    /// is the position of the group's layout in the pipeline: nothing here
    /// checks that it is.
    pub fn attach<'a>(&'a self, pass: &mut Pass<'a>, index: u32, offsets: &[DynamicOffset])
        ensures
            final(pass)@ == old(pass)@.record(
                CommandView::SetBindGroup { index, bind_group: self@.id, offsets: offsets@ },
            ),
            *final(final(pass).record) == *final(old(pass).record),
    {
        pass.set_bind_group(index, self, offsets);
    }

    /// The handle of the bind group.
    pub fn id(&self) -> (id: Handle)
        ensures
            id == self@.id,
    {
        self.id
    }

    /// The handle of the layout that the bind group was built with.
    pub fn layout(&self) -> (layout: Handle)
        ensures
            layout == self@.layout,
    {
        self.layout
    }
}

/// A resource that waits in a builder for its bind group.
#[derive(Clone, Copy, Debug)]
pub enum Bindable<'a> {
    Texture(&'a Texture2D),
    Sampler(&'a Sampler),
    Buffer(&'a UniformBuffer),
}

impl<'a> BindGroupEntry for Bindable<'a> {
    open spec fn stages(&self) -> ShaderStages {
        match *self {
            Bindable::Texture(texture) => texture.stages(),
            Bindable::Sampler(sampler) => sampler.stages(),
            Bindable::Buffer(buffer) => buffer.stages(),
        }
    }

    open spec fn kind(&self) -> BindingType {
        match *self {
            Bindable::Texture(texture) => texture.kind(),
            Bindable::Sampler(sampler) => sampler.kind(),
            Bindable::Buffer(buffer) => buffer.kind(),
        }
    }

    open spec fn bound(&self) -> BindingResource {
        match *self {
            Bindable::Texture(texture) => texture.bound(),
            Bindable::Sampler(sampler) => sampler.bound(),
            Bindable::Buffer(buffer) => buffer.bound(),
        }
    }

    fn visibility(&self) -> (visibility: ShaderStages) {
        match *self {
            Bindable::Texture(texture) => texture.visibility(),
            Bindable::Sampler(sampler) => sampler.visibility(),
            Bindable::Buffer(buffer) => buffer.visibility(),
        }
    }

    fn binding_type(&self) -> (ty: BindingType) {
        match *self {
            Bindable::Texture(texture) => texture.binding_type(),
            Bindable::Sampler(sampler) => sampler.binding_type(),
            Bindable::Buffer(buffer) => buffer.binding_type(),
        }
    }

    fn resource(&self) -> (resource: BindingResource) {
        match *self {
            Bindable::Texture(texture) => texture.resource(),
            Bindable::Sampler(sampler) => sampler.resource(),
            Bindable::Buffer(buffer) => buffer.resource(),
        }
    }
}

/// The layout that `slots` give: the binding at position `i` has index `i`
/// and is seen and typed as the resource there says.
pub open spec fn layout_entries(slots: Seq<Slot>) -> Seq<BindGroupLayoutEntry> {
    Seq::new(
        slots.len(),
        |i: int|
            BindGroupLayoutEntry {
                binding: i as u32,
                visibility: slots[i].visibility,
                ty: slots[i].ty,
                count: None,
            },
    )
}

/// The bindings that `slots` give: the binding at position `i` has index
/// `i` and holds the handle of the resource there.
pub open spec fn bindings(slots: Seq<Slot>) -> Seq<Binding> {
    Seq::new(slots.len(), |i: int| Binding { binding: i as u32, resource: slots[i].resource })
}

/// The binding indices that `slots` give are 0, 1, 2 and so on, one for
/// each resource and in the order of the resources; each binding is seen
/// and typed as its resource says and holds the handle of its resource.
pub proof fn lemma_bindings_follow_order(slots: Seq<Slot>, i: int)
    requires
        slots.len() <= u32::MAX,
        0 <= i < slots.len(),
    ensures
        layout_entries(slots).len() == slots.len(),
        bindings(slots).len() == slots.len(),
        layout_entries(slots)[i].binding == i,
        layout_entries(slots)[i].visibility == slots[i].visibility,
        layout_entries(slots)[i].ty == slots[i].ty,
        bindings(slots)[i].binding == i,
        bindings(slots)[i].resource == slots[i].resource,
{
}

/// The context `ctx` after a bind group of `slots` was asked of the driver:
/// first its layout, then the bind group itself.
pub open spec fn bind_group_requests(ctx: ContextView, slots: Seq<Slot>) -> ContextView {
    let layout = ctx.next_handle();
    let with_layout = ctx.issue(ResourceKind::BindGroupLayout).enqueue(
        RequestView::CreateBindGroupLayout { id: layout, entries: layout_entries(slots) },
    );
    with_layout.issue(ResourceKind::BindGroup).enqueue(
        RequestView::CreateBindGroup {
            id: with_layout.next_handle(),
            layout,
            entries: bindings(slots),
        },
    )
}

/// Collects the resources of a bind group. The position of a resource in
/// the order of the `with` calls is its binding index.
pub struct BindGroupBuilder<'a>(Vec<Bindable<'a>>);

impl<'a> View for BindGroupBuilder<'a> {
    type V = Seq<Slot>;

    closed spec fn view(&self) -> Seq<Slot> {
        Seq::new(self.0@.len(), |i: int| slot_of(&self.0@[i]))
    }
}

impl<'a> BindGroupBuilder<'a> {
    /// A builder with no resource yet.
    pub fn new() -> (builder: BindGroupBuilder<'a>)
        ensures
            builder@ == Seq::<Slot>::empty(),
    {
        let builder = BindGroupBuilder(Vec::new());
        builder
    }

    /// How many resources the builder holds.
    pub fn len(&self) -> (len: usize)
        ensures
            len == self@.len(),
    {
        self.0.len()
    }

    fn push(self, entry: Bindable<'a>) -> (builder: BindGroupBuilder<'a>)
        ensures
            builder@ == self@.push(slot_of(&entry)),
    {
        let mut builder = self;
        builder.0.push(entry);
        builder
    }

    /// Asks the driver for the layout that the resources give and for the
    /// bind group that holds them, and registers the layout with
    /// `pipeline_builder`, where it gets the group index after the last one
    /// registered. A builder without resources gives an empty layout and an
    /// empty bind group.
    pub fn build(self, ctx: &mut Context, pipeline_builder: &mut PipelineBuilder) -> (bind_group:
        BindGroup)
        requires
            self@.len() <= u32::MAX,
        ensures
            bind_group@ == (BindGroupView {
                id: old(ctx)@.issue(ResourceKind::BindGroupLayout).next_handle(),
                layout: old(ctx)@.next_handle(),
            }),
            final(ctx)@ == bind_group_requests(old(ctx)@, self@),
            final(pipeline_builder)@ == old(pipeline_builder)@.with_bind_group_layout(
                old(ctx)@.next_handle(),
            ),
    {
        let mut layout_entries: Vec<BindGroupLayoutEntry> = Vec::new();
        let mut entries: Vec<Binding> = Vec::new();
        let mut binding: usize = 0;
        while binding < self.0.len()
            invariant
                binding <= self.0@.len() <= u32::MAX,
                self@.len() == self.0@.len(),
                layout_entries@ == self::layout_entries(self@).take(binding as int),
                entries@ == bindings(self@).take(binding as int),
            decreases self.0@.len() - binding,
        {
            let entry = self.0[binding];
            layout_entries.push(
                BindGroupLayoutEntry {
                    binding: binding as u32,
                    visibility: entry.visibility(),
                    ty: entry.binding_type(),
                    count: None,
                },
            );
            entries.push(Binding { binding: binding as u32, resource: entry.resource() });
            binding = binding + 1;
        }
        assert(layout_entries@ =~= self::layout_entries(self@));
        assert(entries@ =~= bindings(self@));
        let layout = ctx.issue(ResourceKind::BindGroupLayout);
        ctx.enqueue(Request::CreateBindGroupLayout { id: layout, entries: layout_entries });
        let id = ctx.issue(ResourceKind::BindGroup);
        ctx.enqueue(Request::CreateBindGroup { id, layout, entries });
        pipeline_builder.with_bind_group_layout(layout);
        BindGroup { id, layout }
    }
}

/// Adds a resource of type `T` to a builder.
pub trait BindGroupBuilderWith<'a, T> {
    fn with(self, data: &'a T) -> Self;
}

impl<'a> BindGroupBuilderWith<'a, Texture2D> for BindGroupBuilder<'a> {
    fn with(self, data: &'a Texture2D) -> (builder: Self)
        ensures
            builder@ == self@.push(slot_of(data)),
    {
        self.push(Bindable::Texture(data))
    }
}

impl<'a> BindGroupBuilderWith<'a, Sampler> for BindGroupBuilder<'a> {
    fn with(self, data: &'a Sampler) -> (builder: Self)
        ensures
            builder@ == self@.push(slot_of(data)),
    {
        self.push(Bindable::Sampler(data))
    }
}

impl<'a> BindGroupBuilderWith<'a, UniformBuffer> for BindGroupBuilder<'a> {
    fn with(self, data: &'a UniformBuffer) -> (builder: Self)
        ensures
            builder@ == self@.push(slot_of(data)),
    {
        self.push(Bindable::Buffer(data))
    }
}

} // verus!
