//! Render passes: the commands recorded against one render target.

use crate::bind_group::BindGroup;
use crate::buffer::{BufferSlice, IndexFormat};
use crate::driver::Handle;
use crate::pipeline::Pipeline;
use crate::DynamicOffset;
use std::ops::Range;
use vstd::prelude::*;

verus! {

/// An RGBA color. Each channel holds the bit pattern of a 32-bit float, as
/// `f32::to_bits` gives it; this layer carries the channels and never
/// computes with them.
#[derive(Clone, Copy, Debug, PartialEq, Eq, Structural)]
pub struct Color {
    pub r: u32,
    pub g: u32,
    pub b: u32,
    pub a: u32,
}

/// What happens to the render target when a pass begins.
#[derive(Clone, Copy, Debug, PartialEq, Eq, Structural)]
pub enum LoadOp {
    Clear(Color),
    Load,
}

/// What happens to the render target when a pass ends.
#[derive(Clone, Copy, Debug, PartialEq, Eq, Structural)]
pub enum StoreOp {
    Store,
    Discard,
}

/// What the driver needs to know to begin a pass. A pass has one color
/// attachment, the view of the frame's surface image.
#[derive(Clone, Copy, Debug, PartialEq, Eq, Structural)]
pub struct PassDescriptor {
    pub load: LoadOp,
    pub store: StoreOp,
    /// Whether the color attachment has a resolve target.
    pub resolve: bool,
    /// Whether there is a depth and stencil attachment.
    pub depth_stencil: bool,
    /// Whether timestamps are written.
    pub timestamp_writes: bool,
    /// Whether occlusion is queried.
    pub occlusion_query: bool,
}

/// One recorded command of a pass.
#[derive(Debug, PartialEq, Eq)]
#[allow(inconsistent_fields)]
pub enum Command {
    SetPipeline { pipeline: Handle },
    SetBindGroup { index: u32, bind_group: Handle, offsets: Vec<u32> },
    SetVertexBuffer { slot: u32, slice: BufferSlice },
    SetIndexBuffer { slice: BufferSlice, format: IndexFormat },
    Draw { vertices: Range<u32>, instances: Range<u32> },
    DrawIndexed { indices: Range<u32>, base_vertex: i32, instances: Range<u32> },
}

/// A [`Command`] as a value of specifications.
#[allow(inconsistent_fields)]
pub enum CommandView {
    SetPipeline { pipeline: Handle },
    SetBindGroup { index: u32, bind_group: Handle, offsets: Seq<u32> },
    SetVertexBuffer { slot: u32, slice: BufferSlice },
    SetIndexBuffer { slice: BufferSlice, format: IndexFormat },
    Draw { vertices: Range<u32>, instances: Range<u32> },
    DrawIndexed { indices: Range<u32>, base_vertex: i32, instances: Range<u32> },
}

impl View for Command {
    type V = CommandView;

    open spec fn view(&self) -> CommandView {
        match *self {
            Command::SetPipeline { pipeline } => CommandView::SetPipeline { pipeline },
            Command::SetBindGroup { index, bind_group, offsets } => CommandView::SetBindGroup {
                index,
                bind_group,
                offsets: offsets@,
            },
            Command::SetVertexBuffer { slot, slice } => CommandView::SetVertexBuffer {
                slot,
                slice,
            },
            Command::SetIndexBuffer { slice, format } => CommandView::SetIndexBuffer {
                slice,
                format,
            },
            Command::Draw { vertices, instances } => CommandView::Draw { vertices, instances },
            Command::DrawIndexed { indices, base_vertex, instances } => CommandView::DrawIndexed {
                indices,
                base_vertex,
                instances,
            },
        }
    }
}

/// The views of `commands`, in order.
pub open spec fn command_views(commands: Seq<Command>) -> Seq<CommandView> {
    Seq::new(commands.len(), |i: int| commands[i]@)
}

/// One pass as it was recorded: how it begins, and its commands in order.
#[derive(Debug, PartialEq, Eq)]
pub struct PassRecord {
    pub descriptor: PassDescriptor,
    pub commands: Vec<Command>,
}

/// A [`PassRecord`] as a value of specifications.
pub struct PassRecordView {
    pub descriptor: PassDescriptor,
    pub commands: Seq<CommandView>,
}

impl View for PassRecord {
    type V = PassRecordView;

    open spec fn view(&self) -> PassRecordView {
        PassRecordView {
            descriptor: self.descriptor,
            commands: command_views(self.commands@),
        }
    }
}

/// The views of `passes`, in order.
pub open spec fn pass_views(passes: Seq<PassRecord>) -> Seq<PassRecordView> {
    Seq::new(passes.len(), |i: int| passes[i]@)
}

impl PassRecordView {
    /// This record with `command` behind the commands it holds.
    pub open spec fn record(self, command: CommandView) -> PassRecordView {
        PassRecordView { commands: self.commands.push(command), ..self }
    }
}

/// How every pass of this layer begins and ends: the target is cleared to
/// `clear`, what is drawn is stored, and there is no resolve target, depth
/// or stencil attachment, timestamp or occlusion query.
pub open spec fn clearing(clear: Color) -> PassDescriptor {
    PassDescriptor {
        load: LoadOp::Clear(clear),
        store: StoreOp::Store,
        resolve: false,
        depth_stencil: false,
        timestamp_writes: false,
        occlusion_query: false,
    }
}

/// An open render pass. It records commands; none runs before the frame is
/// finished. The pass borrows its part of the frame, so it ends before the
/// frame does.
///
/// In contracts, `*final(pass.record)` is what the frame holds of the pass
/// once the pass has ended. Recording a command changes what the pass holds
/// now and leaves alone where that will end up.
pub struct Pass<'a> {
    /// The part of the frame that the pass writes to.
    pub record: &'a mut PassRecord,
}

impl<'a> View for Pass<'a> {
    type V = PassRecordView;

    /// What the pass has recorded so far.
    open spec fn view(&self) -> PassRecordView {
        (*self.record)@
    }
}

impl<'a> Pass<'a> {
    /// Begins a pass behind those that `passes` holds: the target is
    /// cleared to `clear`, and no command is recorded yet.
    pub(crate) fn new(passes: &'a mut Vec<PassRecord>, clear: Color) -> (pass: Pass<'a>)
        ensures
            pass@ == (PassRecordView {
                descriptor: clearing(clear),
                commands: Seq::<CommandView>::empty(),
            }),
            final(passes)@ == old(passes)@.push(*final(pass.record)),
    {
        passes.push(
            PassRecord {
                descriptor: PassDescriptor {
                    load: LoadOp::Clear(clear),
                    store: StoreOp::Store,
                    resolve: false,
                    depth_stencil: false,
                    timestamp_writes: false,
                    occlusion_query: false,
                },
                commands: Vec::new(),
            },
        );
        let last = passes.len() - 1;
        let pass = Pass { record: &mut passes[last] };
        assert(pass@.commands =~= Seq::<CommandView>::empty());
        pass
    }

    fn push(&mut self, command: Command)
        ensures
            final(self)@ == old(self)@.record(command@),
            *final(final(self).record) == *final(old(self).record),
    {
        self.record.commands.push(command);
        assert(self@.commands =~= old(self)@.commands.push(command@));
    }

    /// Records that the draws that follow use `pipeline`.
    pub fn set_pipeline(&mut self, pipeline: &'a Pipeline)
        ensures
            final(self)@ == old(self)@.record(
                CommandView::SetPipeline { pipeline: pipeline@.id },
            ),
            *final(final(self).record) == *final(old(self).record),
    {
        self.push(Command::SetPipeline { pipeline: pipeline.id() });
    }

    /// Records that the draws that follow read vertex stream `slot` from
    /// `slice`.
    pub fn set_vertex_buffer(&mut self, slot: u32, slice: BufferSlice)
        ensures
            final(self)@ == old(self)@.record(CommandView::SetVertexBuffer { slot, slice }),
            *final(final(self).record) == *final(old(self).record),
    {
        self.push(Command::SetVertexBuffer { slot, slice });
    }

    /// Records that the indexed draws that follow read their indices, of
    /// width `format`, from `slice`.
    pub fn set_index_buffer(&mut self, slice: BufferSlice, format: IndexFormat)
        ensures
            final(self)@ == old(self)@.record(CommandView::SetIndexBuffer { slice, format }),
            *final(final(self).record) == *final(old(self).record),
    {
        self.push(Command::SetIndexBuffer { slice, format });
    }

    /// Records a draw of `vertices` for each of `instances`.
    pub fn draw(&mut self, vertices: Range<u32>, instances: Range<u32>)
        ensures
            final(self)@ == old(self)@.record(CommandView::Draw { vertices, instances }),
            *final(final(self).record) == *final(old(self).record),
    {
        self.push(Command::Draw { vertices, instances });
    }

    /// Records a draw of the vertices that `indices` of the index buffer
    /// name, each moved by `base_vertex`, for each of `instances`.
    pub fn draw_indexed(&mut self, indices: Range<u32>, base_vertex: i32, instances: Range<u32>)
        ensures
            final(self)@ == old(self)@.record(
                CommandView::DrawIndexed { indices, base_vertex, instances },
            ),
            *final(final(self).record) == *final(old(self).record),
    {
        self.push(Command::DrawIndexed { indices, base_vertex, instances });
    }

    /// Records that the draws that follow read group `index` from
    /// `bind_group`, with `offsets` for its dynamic bindings.
    pub fn set_bind_group(
        &mut self,
        index: u32,
        bind_group: &'a BindGroup,
        offsets: &[DynamicOffset],
    )
        ensures
            final(self)@ == old(self)@.record(
                CommandView::SetBindGroup {
                    index,
                    bind_group: bind_group@.id,
                    offsets: offsets@,
                },
            ),
            *final(final(self).record) == *final(old(self).record),
    {
        self.push(
            Command::SetBindGroup {
                index,
                bind_group: bind_group.id(),
                offsets: vstd::slice::slice_to_vec(offsets),
            },
        );
    }
}

} // verus!
