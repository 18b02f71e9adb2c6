//! The driver capability as data: handles to what the driver creates, and
//! the requests that this layer hands it, in the order in which it is to
//! carry them out.

use crate::bind_group::{BindGroupLayoutEntry, Binding};
use crate::buffer::BufferUsages;
use crate::graphics_state::SurfaceConfiguration;
use crate::pass::{pass_views, PassRecord, PassRecordView};
use crate::pipeline::{RenderPipelineDescriptor, RenderPipelineDescriptorView};
use crate::texture::{Extent3d, ImageDataLayout, SamplerDescriptor, TextureDescriptor};
use vstd::prelude::*;

verus! {

/// Names one thing that the driver was asked to create. Handles are
/// numbered in the order of creation, from zero.
#[derive(Clone, Copy, Debug, PartialEq, Eq, Hash, Structural)]
pub struct Handle {
    pub index: usize,
}

/// What a handle names.
#[derive(Clone, Copy, Debug, PartialEq, Eq, Structural)]
pub enum ResourceKind {
    ShaderModule,
    Buffer,
    Texture,
    TextureView,
    Sampler,
    BindGroupLayout,
    BindGroup,
    PipelineLayout,
    RenderPipeline,
}

/// One piece of work for the driver.
#[derive(Debug, PartialEq, Eq)]
#[allow(inconsistent_fields)]
pub enum Request {
    CreateShaderModule { id: Handle, source: String },
    /// Create a buffer that holds `contents`.
    CreateBuffer { id: Handle, contents: Vec<u8>, usage: BufferUsages },
    /// Overwrite the bytes of `buffer` from `offset` on with `data`.
    WriteBuffer { buffer: Handle, offset: u64, data: Vec<u8> },
    CreateTexture { id: Handle, descriptor: TextureDescriptor },
    /// Fill the first mip level of `texture` with `data`.
    WriteTexture { texture: Handle, data: Vec<u8>, layout: ImageDataLayout, size: Extent3d },
    /// Create a view of the whole of `texture`.
    CreateTextureView { id: Handle, texture: Handle },
    CreateSampler { id: Handle, descriptor: SamplerDescriptor },
    CreateBindGroupLayout { id: Handle, entries: Vec<BindGroupLayoutEntry> },
    CreateBindGroup { id: Handle, layout: Handle, entries: Vec<Binding> },
    /// Create a pipeline layout; the position of a bind group layout in
    /// `bind_group_layouts` is its group index.
    CreatePipelineLayout { id: Handle, bind_group_layouts: Vec<Handle> },
    CreateRenderPipeline { id: Handle, descriptor: RenderPipelineDescriptor },
    /// Encode `passes` against the acquired surface image and submit them.
    Submit { passes: Vec<PassRecord> },
    /// Present the acquired surface image.
    Present,
    /// Configure the surface.
    ConfigureSurface { configuration: SurfaceConfiguration },
    /// Ask the window for a redraw.
    RequestRedraw,
    /// Move the cursor to a position in the window, in physical pixels;
    /// `x` and `y` hold the bit patterns of 32-bit floats.
    SetCursorPosition { x: u32, y: u32 },
    /// Confine the cursor to where it is.
    LockCursor,
}

/// A [`Request`] as a value of specifications.
#[allow(inconsistent_fields)]
pub enum RequestView {
    CreateShaderModule { id: Handle, source: Seq<char> },
    CreateBuffer { id: Handle, contents: Seq<u8>, usage: BufferUsages },
    WriteBuffer { buffer: Handle, offset: u64, data: Seq<u8> },
    CreateTexture { id: Handle, descriptor: TextureDescriptor },
    WriteTexture { texture: Handle, data: Seq<u8>, layout: ImageDataLayout, size: Extent3d },
    CreateTextureView { id: Handle, texture: Handle },
    CreateSampler { id: Handle, descriptor: SamplerDescriptor },
    CreateBindGroupLayout { id: Handle, entries: Seq<BindGroupLayoutEntry> },
    CreateBindGroup { id: Handle, layout: Handle, entries: Seq<Binding> },
    CreatePipelineLayout { id: Handle, bind_group_layouts: Seq<Handle> },
    CreateRenderPipeline { id: Handle, descriptor: RenderPipelineDescriptorView },
    Submit { passes: Seq<PassRecordView> },
    Present,
    ConfigureSurface { configuration: SurfaceConfiguration },
    RequestRedraw,
    SetCursorPosition { x: u32, y: u32 },
    LockCursor,
}

impl View for Request {
    type V = RequestView;

    open spec fn view(&self) -> RequestView {
        match *self {
            Request::CreateShaderModule { id, source } => RequestView::CreateShaderModule {
                id,
                source: source@,
            },
            Request::CreateBuffer { id, contents, usage } => RequestView::CreateBuffer {
                id,
                contents: contents@,
                usage,
            },
            Request::WriteBuffer { buffer, offset, data } => RequestView::WriteBuffer {
                buffer,
                offset,
                data: data@,
            },
            Request::CreateTexture { id, descriptor } => RequestView::CreateTexture {
                id,
                descriptor,
            },
            Request::WriteTexture { texture, data, layout, size } => RequestView::WriteTexture {
                texture,
                data: data@,
                layout,
                size,
            },
            Request::CreateTextureView { id, texture } => RequestView::CreateTextureView {
                id,
                texture,
            },
            Request::CreateSampler { id, descriptor } => RequestView::CreateSampler {
                id,
                descriptor,
            },
            Request::CreateBindGroupLayout { id, entries } => RequestView::CreateBindGroupLayout {
                id,
                entries: entries@,
            },
            Request::CreateBindGroup { id, layout, entries } => RequestView::CreateBindGroup {
                id,
                layout,
                entries: entries@,
            },
            Request::CreatePipelineLayout {
                id,
                bind_group_layouts,
            } => RequestView::CreatePipelineLayout {
                id,
                bind_group_layouts: bind_group_layouts@,
            },
            Request::CreateRenderPipeline { id, descriptor } => RequestView::CreateRenderPipeline {
                id,
                descriptor: descriptor@,
            },
            Request::Submit { passes } => RequestView::Submit { passes: pass_views(passes@) },
            Request::Present => RequestView::Present,
            Request::ConfigureSurface { configuration } => RequestView::ConfigureSurface {
                configuration,
            },
            Request::RequestRedraw => RequestView::RequestRedraw,
            Request::SetCursorPosition { x, y } => RequestView::SetCursorPosition { x, y },
            Request::LockCursor => RequestView::LockCursor,
        }
    }
}

/// The views of `requests`, in order.
pub open spec fn request_views(requests: Seq<Request>) -> Seq<RequestView> {
    Seq::new(requests.len(), |i: int| requests[i]@)
}

} // verus!
