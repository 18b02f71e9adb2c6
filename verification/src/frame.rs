//! Frames: one acquire, record, submit and present cycle against the
//! surface.

use crate::context::Context;
use crate::driver::{Request, RequestView};
use crate::pass::{clearing, pass_views, Color, CommandView, Pass, PassRecord, PassRecordView};
use vstd::prelude::*;

verus! {

/// Why the surface gave no image to draw to.
#[derive(Clone, Copy, Debug, PartialEq, Eq, Structural)]
pub enum SurfaceError {
    /// The surface was lost; it can be configured again and used for the
    /// next frame.
    Lost,
    /// The driver is out of memory; there is no way on.
    OutOfMemory,
    /// Any other failure; the frame is dropped.
    Other,
}

/// An open frame: the passes recorded against the acquired surface image.
#[derive(Debug, PartialEq, Eq)]
pub struct Frame {
    passes: Vec<PassRecord>,
}

impl View for Frame {
    type V = Seq<PassRecordView>;

    /// The passes recorded so far, in order.
    closed spec fn view(&self) -> Seq<PassRecordView> {
        pass_views(self.passes@)
    }
}

impl Frame {
    /// Opens a frame on the surface image that was acquired, or hands on
    /// the reason why none was.
    pub fn new(acquired: Result<(), SurfaceError>) -> (frame: Result<Frame, SurfaceError>)
        ensures
            match acquired {
                Ok(_) => frame matches Ok(opened) && opened@ == Seq::<PassRecordView>::empty(),
                Err(error) => frame matches Err(reason) && reason == error,
            },
    {
        match acquired {
            Ok(_) => {
                let frame = Frame { passes: Vec::new() };
                Ok(frame)
            },
            Err(error) => Err(error),
        }
    }

    /// Opens a pass that clears the target to `clear`. The pass borrows the
    /// frame: while it is open no other pass can be opened and the frame
    /// cannot be finished. What the pass has recorded when it ends is what
    /// the frame then holds as its last pass.
    pub fn pass(&mut self, clear: Color) -> (pass: Pass<'_>)
        ensures
            pass@ == (PassRecordView {
                descriptor: clearing(clear),
                commands: Seq::<CommandView>::empty(),
            }),
            final(self)@ == old(self)@.push((*final(pass.record))@),
    {
        Pass::new(&mut self.passes, clear)
    }

    /// Asks the driver to run the passes recorded and to present the
    /// surface image, and ends the frame.
    pub fn finish(self, ctx: &mut Context)
        ensures
            final(ctx)@ == old(ctx)@.enqueue(RequestView::Submit { passes: self@ }).enqueue(
                RequestView::Present,
            ),
    {
        ctx.enqueue(Request::Submit { passes: self.passes });
        ctx.enqueue(Request::Present);
    }

    /// The passes recorded so far, in order.
    pub fn passes(&self) -> (passes: &Vec<PassRecord>)
        ensures
            pass_views(passes@) == self@,
    {
        &self.passes
    }
}

} // verus!
