//! Buffers: uniform, vertex and index data that the driver holds.

use crate::bind_group::{BindGroupEntry, BindingResource, BindingType, ShaderStages};
use crate::context::Context;
use crate::driver::{Handle, Request, RequestView, ResourceKind};
use crate::pass::{CommandView, Pass};
use crate::BufferAddress;
use vstd::prelude::*;

verus! {

/// What a buffer may be used for.
#[derive(Clone, Copy, Debug, PartialEq, Eq, Structural)]
pub struct BufferUsages {
    pub vertex: bool,
    pub index: bool,
    pub uniform: bool,
    pub copy_dst: bool,
}

/// The width of the indices in an index buffer.
#[derive(Clone, Copy, Debug, PartialEq, Eq, Structural)]
pub enum IndexFormat {
    Uint16,
    Uint32,
}

/// A range of bytes of one buffer, from `start` up to `end`, or to the end
/// of the buffer where `end` is `None`.
#[derive(Clone, Copy, Debug, PartialEq, Eq, Structural)]
pub struct BufferSlice {
    pub buffer: Handle,
    pub start: BufferAddress,
    pub end: Option<BufferAddress>,
}

/// The usage of uniform buffers: read by shaders, written by the host.
pub open spec fn uniform_usage() -> BufferUsages {
    BufferUsages { vertex: false, index: false, uniform: true, copy_dst: true }
}

/// The usage of vertex buffers.
pub open spec fn vertex_usage() -> BufferUsages {
    BufferUsages { vertex: true, index: false, uniform: false, copy_dst: false }
}

/// The usage of index buffers.
pub open spec fn index_usage() -> BufferUsages {
    BufferUsages { vertex: false, index: true, uniform: false, copy_dst: false }
}

/// Asks the driver for a buffer that holds `contents`.
pub(crate) fn create_buffer(ctx: &mut Context, contents: Vec<u8>, usage: BufferUsages) -> (id:
    Handle)
    ensures
        id == old(ctx)@.next_handle(),
        final(ctx)@ == old(ctx)@.issue(ResourceKind::Buffer).enqueue(
            RequestView::CreateBuffer { id, contents: contents@, usage },
        ),
{
    let id = ctx.issue(ResourceKind::Buffer);
    ctx.enqueue(Request::CreateBuffer { id, contents, usage });
    id
}

/// `bytemuck::cast_slice` from plain values to bytes: the memory of `data`
/// as it lies, as many bytes for each value as its type takes. The order of
/// the bytes of a value is the machine's.
#[verifier::external_body]
fn cast_slice<T: bytemuck::NoUninit>(data: &[T]) -> (bytes: Vec<u8>)
    ensures
        bytes@.len() == data@.len() * vstd::layout::size_of::<T>(),
{
    bytemuck::cast_slice::<T, u8>(data).to_vec()
}

/// A buffer that shaders read as a uniform record.
#[derive(Debug, PartialEq, Eq)]
pub struct UniformBuffer {
    id: Handle,
}

impl UniformBuffer {
    /// The handle of the buffer.
    pub closed spec fn handle(&self) -> Handle {
        self.id
    }

    /// Asks the driver for a uniform buffer that holds `data`, the bytes
    /// of a uniform record.
    pub fn new(ctx: &mut Context, data: &[u8]) -> (buffer: UniformBuffer)
        ensures
            buffer.handle() == old(ctx)@.next_handle(),
            final(ctx)@ == old(ctx)@.issue(ResourceKind::Buffer).enqueue(
                RequestView::CreateBuffer {
                    id: buffer.handle(),
                    contents: data@,
                    usage: uniform_usage(),
                },
            ),
    {
        let usage = BufferUsages { vertex: false, index: false, uniform: true, copy_dst: true };
        UniformBuffer { id: create_buffer(ctx, vstd::slice::slice_to_vec(data), usage) }
    }

    /// Asks the driver to overwrite the buffer from `offset` on with
    /// `data`. The write is queued behind what was asked before it; nothing
    /// holds it back until frames that read the buffer are done.
    pub fn write(&self, ctx: &mut Context, offset: BufferAddress, data: &[u8])
        ensures
            final(ctx)@ == old(ctx)@.enqueue(
                RequestView::WriteBuffer { buffer: self.handle(), offset, data: data@ },
            ),
    {
        ctx.enqueue(
            Request::WriteBuffer {
                buffer: self.id,
                offset,
                data: vstd::slice::slice_to_vec(data),
            },
        );
    }

    /// The handle of the buffer.
    pub fn id(&self) -> (id: Handle)
        ensures
            id == self.handle(),
    {
        self.id
    }
}

impl BindGroupEntry for UniformBuffer {
    open spec fn stages(&self) -> ShaderStages {
        ShaderStages { vertex: true, fragment: true }
    }

    open spec fn kind(&self) -> BindingType {
        BindingType::UniformBuffer { has_dynamic_offset: false, min_binding_size: None }
    }

    open spec fn bound(&self) -> BindingResource {
        BindingResource::Buffer(self.handle())
    }

    fn visibility(&self) -> (visibility: ShaderStages) {
        ShaderStages { vertex: true, fragment: true }
    }

    fn binding_type(&self) -> (ty: BindingType) {
        BindingType::UniformBuffer { has_dynamic_offset: false, min_binding_size: None }
    }

    fn resource(&self) -> (resource: BindingResource) {
        BindingResource::Buffer(self.id)
    }
}

/// A buffer of vertex records.
#[derive(Debug, PartialEq, Eq)]
pub struct VertexBuffer {
    id: Handle,
}

impl VertexBuffer {
    /// The handle of the buffer.
    pub closed spec fn handle(&self) -> Handle {
        self.id
    }

    /// Asks the driver for a vertex buffer that holds `data`, the bytes of
    /// the vertex records one after the other.
    pub fn new(ctx: &mut Context, data: &[u8]) -> (buffer: VertexBuffer)
        ensures
            buffer.handle() == old(ctx)@.next_handle(),
            final(ctx)@ == old(ctx)@.issue(ResourceKind::Buffer).enqueue(
                RequestView::CreateBuffer {
                    id: buffer.handle(),
                    contents: data@,
                    usage: vertex_usage(),
                },
            ),
    {
        let usage = BufferUsages { vertex: true, index: false, uniform: false, copy_dst: false };
        VertexBuffer { id: create_buffer(ctx, vstd::slice::slice_to_vec(data), usage) }
    }

    /// Records in `pass` that vertex stream `slot` is read from this
    /// buffer, from byte `start` up to byte `end`, or to the end of the
    /// buffer where `end` is `None`.
    pub fn attach<'a>(
        &'a self,
        pass: &mut Pass<'a>,
        slot: u32,
        start: BufferAddress,
        end: Option<BufferAddress>,
    )
        ensures
            final(pass)@ == old(pass)@.record(
                CommandView::SetVertexBuffer {
                    slot,
                    slice: BufferSlice { buffer: self.handle(), start, end },
                },
            ),
            *final(final(pass).record) == *final(old(pass).record),
    {
        pass.set_vertex_buffer(slot, BufferSlice { buffer: self.id, start, end });
    }

    /// The handle of the buffer.
    pub fn id(&self) -> (id: Handle)
        ensures
            id == self.handle(),
    {
        self.id
    }
}

/// A buffer of 16-bit indices.
#[derive(Debug, PartialEq, Eq)]
pub struct IndexBufferU16 {
    id: Handle,
}

impl IndexBufferU16 {
    /// The handle of the buffer.
    pub closed spec fn handle(&self) -> Handle {
        self.id
    }

    /// Asks the driver for an index buffer that holds `data` as it lies in
    /// memory: two bytes for each index.
    pub fn new(ctx: &mut Context, data: &[u16]) -> (buffer: IndexBufferU16)
        ensures
            buffer.handle() == old(ctx)@.next_handle(),
            final(ctx)@.pending.len() == old(ctx)@.pending.len() + 1,
            final(ctx)@.pending.last() matches RequestView::CreateBuffer { id, contents, usage }
                && contents.len() == 2 * data@.len() && final(ctx)@ == old(ctx)@.issue(
                ResourceKind::Buffer,
            ).enqueue(RequestView::CreateBuffer { id: buffer.handle(), contents, usage: index_usage() }),
    {
        let usage = BufferUsages { vertex: false, index: true, uniform: false, copy_dst: false };
        IndexBufferU16 { id: create_buffer(ctx, cast_slice(data), usage) }
    }

    /// Records in `pass` that indices are read from this buffer, from byte
    /// `start` up to byte `end`, or to the end of the buffer where `end` is
    /// `None`.
    pub fn attach<'a>(
        &'a self,
        pass: &mut Pass<'a>,
        start: BufferAddress,
        end: Option<BufferAddress>,
    )
        ensures
            final(pass)@ == old(pass)@.record(
                CommandView::SetIndexBuffer {
                    slice: BufferSlice { buffer: self.handle(), start, end },
                    format: IndexFormat::Uint16,
                },
            ),
            *final(final(pass).record) == *final(old(pass).record),
    {
        pass.set_index_buffer(
            BufferSlice { buffer: self.id, start, end },
            IndexFormat::Uint16,
        );
    }

    /// The handle of the buffer.
    pub fn id(&self) -> (id: Handle)
        ensures
            id == self.handle(),
    {
        self.id
    }
}

/// A buffer of 32-bit indices.
#[derive(Debug, PartialEq, Eq)]
pub struct IndexBufferU32 {
    id: Handle,
}

impl IndexBufferU32 {
    /// The handle of the buffer.
    pub closed spec fn handle(&self) -> Handle {
        self.id
    }

    /// Asks the driver for an index buffer that holds `data` as it lies in
    /// memory: four bytes for each index.
    pub fn new(ctx: &mut Context, data: &[u32]) -> (buffer: IndexBufferU32)
        ensures
            buffer.handle() == old(ctx)@.next_handle(),
            final(ctx)@.pending.len() == old(ctx)@.pending.len() + 1,
            final(ctx)@.pending.last() matches RequestView::CreateBuffer { id, contents, usage }
                && contents.len() == 4 * data@.len() && final(ctx)@ == old(ctx)@.issue(
                ResourceKind::Buffer,
            ).enqueue(RequestView::CreateBuffer { id: buffer.handle(), contents, usage: index_usage() }),
    {
        let usage = BufferUsages { vertex: false, index: true, uniform: false, copy_dst: false };
        IndexBufferU32 { id: create_buffer(ctx, cast_slice(data), usage) }
    }

    /// Records in `pass` that indices are read from this buffer, from byte
    /// `start` up to byte `end`, or to the end of the buffer where `end` is
    /// `None`.
    pub fn attach<'a>(
        &'a self,
        pass: &mut Pass<'a>,
        start: BufferAddress,
        end: Option<BufferAddress>,
    )
        ensures
            final(pass)@ == old(pass)@.record(
                CommandView::SetIndexBuffer {
                    slice: BufferSlice { buffer: self.handle(), start, end },
                    format: IndexFormat::Uint32,
                },
            ),
            *final(final(pass).record) == *final(old(pass).record),
    {
        pass.set_index_buffer(
            BufferSlice { buffer: self.id, start, end },
            IndexFormat::Uint32,
        );
    }

    /// The handle of the buffer.
    pub fn id(&self) -> (id: Handle)
        ensures
            id == self.handle(),
    {
        self.id
    }
}

} // verus!
