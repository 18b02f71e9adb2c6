//! The context: what has been created so far, the requests that wait for the
//! driver, the format of the surface, and the keys that are held down.

use crate::driver::{request_views, Handle, Request, RequestView, ResourceKind};
use crate::graphics_state::SurfaceFormat;
use std::collections::HashSet;
use vstd::prelude::*;

verus! {

/// What a [`Context`] holds.
pub struct ContextView {
    pub format: SurfaceFormat,
    /// The width and height of the window, in physical pixels.
    pub size: (u32, u32),
    pub keys: Set<u32>,
    /// The kind of everything created so far, by handle.
    pub resources: Seq<ResourceKind>,
    /// The requests that wait for the driver, oldest first.
    pub pending: Seq<RequestView>,
}

impl ContextView {
    /// The handle that the next thing created will get.
    pub open spec fn next_handle(self) -> Handle {
        Handle { index: self.resources.len() as usize }
    }

    /// This context after it has given out a handle for something of `kind`.
    pub open spec fn issue(self, kind: ResourceKind) -> ContextView {
        ContextView { resources: self.resources.push(kind), ..self }
    }

    /// This context after `request` has joined the end of its queue.
    pub open spec fn enqueue(self, request: RequestView) -> ContextView {
        ContextView { pending: self.pending.push(request), ..self }
    }
}

/// What an application creates things with. The context gives out the
/// handles and keeps the requests for the driver and the window in one
/// queue, so that they are carried out in the order in which they were made.
pub struct Context {
    format: SurfaceFormat,
    size: (u32, u32),
    keys: HashSet<u32>,
    resources: Vec<ResourceKind>,
    requests: Vec<Request>,
}

impl View for Context {
    type V = ContextView;

    closed spec fn view(&self) -> ContextView {
        ContextView {
            format: self.format,
            size: self.size,
            keys: self.keys@,
            resources: self.resources@,
            pending: request_views(self.requests@),
        }
    }
}

impl Context {
    /// A context for a surface of `format` in a window of `size`: nothing
    /// created, nothing waiting, no key held down.
    pub fn new(format: SurfaceFormat, size: (u32, u32)) -> (context: Context)
        ensures
            context@ == (ContextView {
                format,
                size,
                keys: Set::<u32>::empty(),
                resources: Seq::<ResourceKind>::empty(),
                pending: Seq::<RequestView>::empty(),
            }),
    {
        let context = Context {
            format,
            size,
            keys: HashSet::new(),
            resources: Vec::new(),
            requests: Vec::new(),
        };
        assert(context@.pending =~= Seq::<RequestView>::empty());
        context
    }

    /// Gives out the handle for a new thing of `kind`.
    pub(crate) fn issue(&mut self, kind: ResourceKind) -> (id: Handle)
        ensures
            id == old(self)@.next_handle(),
            final(self)@ == old(self)@.issue(kind),
    {
        let id = Handle { index: self.resources.len() };
        self.resources.push(kind);
        id
    }

    /// Puts `request` at the end of the queue.
    pub(crate) fn enqueue(&mut self, request: Request)
        ensures
            final(self)@ == old(self)@.enqueue(request@),
    {
        self.requests.push(request);
        assert(self@.pending =~= old(self)@.pending.push(request@));
    }

    /// The format of the surface that pipelines render to.
    pub fn format(&self) -> (format: SurfaceFormat)
        ensures
            format == self@.format,
    {
        self.format
    }

    /// The width and height of the window, in physical pixels.
    pub fn size(&self) -> (size: (u32, u32))
        ensures
            size == self@.size,
    {
        self.size
    }

    /// Records that the window now has `size`.
    pub(crate) fn set_size(&mut self, size: (u32, u32))
        ensures
            final(self)@ == (ContextView { size, ..old(self)@ }),
    {
        self.size = size;
    }

    /// Asks the window to move the cursor to the position (`x`, `y`), in
    /// physical pixels; `x` and `y` hold the bit patterns of 32-bit floats.
    /// Whether the window could do so is not reported.
    pub fn set_cursor_position(&mut self, x: u32, y: u32)
        ensures
            final(self)@ == old(self)@.enqueue(RequestView::SetCursorPosition { x, y }),
    {
        self.enqueue(Request::SetCursorPosition { x, y });
    }

    /// Asks the window for a redraw.
    pub(crate) fn request_redraw(&mut self)
        ensures
            final(self)@ == old(self)@.enqueue(RequestView::RequestRedraw),
    {
        self.enqueue(Request::RequestRedraw);
    }

    /// Asks the window to confine the cursor to where it is. Whether the
    /// window could do so is not reported.
    pub fn lock_cursor(&mut self)
        ensures
            final(self)@ == old(self)@.enqueue(RequestView::LockCursor),
    {
        self.enqueue(Request::LockCursor);
    }

    /// What `handle` names, if this context gave it out.
    pub fn kind_of(&self, handle: Handle) -> (kind: Option<ResourceKind>)
        ensures
            kind == if handle.index < self@.resources.len() {
                Some(self@.resources[handle.index as int])
            } else {
                None
            },
    {
        if handle.index < self.resources.len() {
            Some(self.resources[handle.index])
        } else {
            None
        }
    }

    /// Hands over the requests that wait, oldest first, and leaves the
    /// queue empty.
    pub fn take_requests(&mut self) -> (requests: Vec<Request>)
        ensures
            request_views(requests@) == old(self)@.pending,
            final(self)@ == (ContextView { pending: Seq::<RequestView>::empty(), ..old(self)@ }),
    {
        let mut requests: Vec<Request> = Vec::new();
        core::mem::swap(&mut self.requests, &mut requests);
        assert(self@.pending =~= Seq::<RequestView>::empty());
        requests
    }

    /// Records that the key `code` went down or came up.
    pub fn set_key(&mut self, code: u32, pressed: bool)
        ensures
            final(self)@ == (ContextView {
                keys: if pressed {
                    old(self)@.keys.insert(code)
                } else {
                    old(self)@.keys.remove(code)
                },
                ..old(self)@
            }),
    {
        if pressed {
            self.keys.insert(code);
        } else {
            self.keys.remove(&code);
        }
    }

    /// Whether the key `code` is held down.
    pub fn key(&self, code: u32) -> (down: bool)
        ensures
            down == self@.keys.contains(code),
    {
        self.keys.contains(&code)
    }
}

} // verus!
