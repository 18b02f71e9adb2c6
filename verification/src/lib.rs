//! A binding layer between host records and a GPU driver: vertex layouts,
//! bind groups, pipelines and per-frame command recording.
//!
//! Nothing here talks to the driver. Whatever is created, written or drawn
//! becomes a [`driver::Request`] in the queue of the [`context::Context`],
//! in the order in which it was asked for; a backend carries the requests
//! out.

use vstd::prelude::*;

pub mod bind_group;
pub mod buffer;
pub mod context;
pub mod data;
pub mod driver;
pub mod frame;
pub mod graphics_state;
pub mod pass;
pub mod pipeline;
pub mod texture;
pub mod uniform;
pub mod vertex;
pub mod window_state;

pub use bind_group::{BindGroup, BindGroupBuilder, BindGroupBuilderWith};
pub use buffer::{IndexBufferU16, IndexBufferU32, UniformBuffer, VertexBuffer};
pub use context::Context;
pub use frame::Frame;
pub use pass::Pass;
pub use pipeline::{Pipeline, PipelineBuilder, Shader};
pub use texture::{Sampler, Texture2D};

verus! {

/// An address in a buffer, in bytes.
pub type BufferAddress = u64;

/// An offset for a dynamic binding, in bytes.
pub type DynamicOffset = u32;

/// What an application is to this layer. The layer calls `new` once, `render`
/// for every frame, and the others as the window reports what happens to it;
/// what an application does in them is its own affair.
pub trait State: Sized {
    /// Sets the application up: creates its resources with `context`.
    fn new(context: &mut Context) -> Self;

    /// The window now is `width` by `height` physical pixels.
    fn resize(&mut self, _ctx: &mut Context, _width: u32, _height: u32) {
    }

    /// The key `code` went down or came up.
    fn key(&mut self, _ctx: &mut Context, _code: u32, _pressed: bool) {
    }

    /// The cursor moved to (`x`, `y`), in physical pixels; `x` and `y` hold
    /// the bit patterns of 32-bit floats.
    fn cursor(&mut self, _ctx: &mut Context, _x: u32, _y: u32) {
    }

    /// `delta` nanoseconds have passed since the last update.
    fn update(&mut self, _ctx: &mut Context, _delta: u128) {
    }

    /// Records the frame.
    fn render(&self, frame: &mut Frame);
}

} // verus!
