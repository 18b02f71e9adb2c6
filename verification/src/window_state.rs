//! The window's side of an application: what each event of the window does
//! to the graphics state and to the application.

use crate::driver::{Request, RequestView};
use crate::frame::SurfaceError;
use crate::graphics_state::{
    surface_configuration, GraphicsState, GraphicsStateView, SurfaceCapabilities,
};
use crate::pass::PassRecordView;
use crate::State;
use vstd::prelude::*;

verus! {

/// A key as the keyboard reports it.
#[derive(Clone, Copy, Debug, PartialEq, Eq, Structural)]
pub enum PhysicalKey {
    /// A key that has a code.
    Code(u32),
    /// A key that has none.
    Unidentified,
}

/// What the window reports.
#[derive(Clone, Copy, Debug, PartialEq, Eq)]
pub enum WindowEvent {
    CloseRequested,
    /// The window now is `width` by `height` physical pixels.
    Resized { width: u32, height: u32 },
    KeyboardInput { key: PhysicalKey, pressed: bool },
    /// The cursor moved to (`x`, `y`), in physical pixels; `x` and `y` hold
    /// the bit patterns of 32-bit floats.
    CursorMoved { x: u32, y: u32 },
    /// The window wants a frame; `acquired` says whether the surface gave
    /// an image to draw it to.
    RedrawRequested { acquired: Result<(), SurfaceError> },
    /// Anything else.
    Other,
}

/// Whether the event loop goes on.
#[derive(Clone, Copy, Debug, PartialEq, Eq, Structural)]
pub enum ControlFlow {
    Continue,
    Exit,
}

/// What a [`WindowState`] holds, beside the application.
pub struct WindowStateView {
    pub graphics: GraphicsStateView,
    /// When the application was last updated, in nanoseconds.
    pub last_time: u128,
}

/// A window with its graphics state and the application that draws to it.
pub struct WindowState<T> {
    graphics: GraphicsState,
    user_state: T,
    last_time: u128,
}

impl<T> View for WindowState<T> {
    type V = WindowStateView;

    closed spec fn view(&self) -> WindowStateView {
        WindowStateView { graphics: self.graphics@, last_time: self.last_time }
    }
}

impl<T: State> WindowState<T> {
    /// The application.
    pub closed spec fn user(&self) -> T {
        self.user_state
    }

    /// The state of a window of `width` by `height` whose surface offers
    /// `caps`, at the time `now`, in nanoseconds. The application is set up
    /// with the context of the new graphics state.
    pub fn new(caps: &SurfaceCapabilities, width: u32, height: u32, now: u128) -> (state: Self)
        requires
            caps.formats@.len() > 0,
            caps.present_modes@.len() > 0,
            caps.alpha_modes@.len() > 0,
        ensures
            state@.last_time == now,
            state@.graphics.config == surface_configuration(
                caps.formats@,
                caps.present_modes@,
                caps.alpha_modes@,
                width,
                height,
            ),
    {
        let mut graphics = GraphicsState::new(caps, width, height);
        let user_state = T::new(graphics.context_mut());
        WindowState { graphics, user_state, last_time: now }
    }

    /// Takes one event of the window.
    ///
    /// A request to close ends the loop. A new size goes to the graphics
    /// state and then to the application; keys and cursor moves go to the
    /// application. A redraw draws one frame where the surface gave an
    /// image; where the surface was lost it is configured again and the
    /// frame is dropped; where memory ran out the loop ends; any other
    /// failure drops the frame.
    pub fn event(&mut self, event: WindowEvent) -> (flow: ControlFlow)
        ensures
            flow == ControlFlow::Exit <==> (event is CloseRequested || event
                == WindowEvent::RedrawRequested {
                acquired: Err::<(), SurfaceError>(SurfaceError::OutOfMemory),
            }),
            final(self)@.last_time == old(self)@.last_time,
            final(self)@.graphics.config == (match event {
                WindowEvent::Resized { width, height } => old(self)@.graphics.resize(
                    width,
                    height,
                ).config,
                _ => old(self)@.graphics.config,
            }),
            match event {
                WindowEvent::Resized { .. }
                | WindowEvent::KeyboardInput { key: PhysicalKey::Code(_), .. }
                | WindowEvent::CursorMoved { .. } => true,
                WindowEvent::RedrawRequested { acquired: Ok(_) } => {
                    &&& final(self).user() == old(self).user()
                    &&& exists|passes: Seq<PassRecordView>|
                        final(self)@.graphics.context == #[trigger] old(
                            self,
                        )@.graphics.context.enqueue(RequestView::Submit { passes }).enqueue(
                            RequestView::Present,
                        )
                },
                WindowEvent::RedrawRequested { acquired: Err(SurfaceError::Lost) } => {
                    &&& final(self).user() == old(self).user()
                    &&& final(self)@.graphics == old(self)@.graphics.resize(
                        old(self)@.graphics.config.width,
                        old(self)@.graphics.config.height,
                    )
                },
                _ => final(self).user() == old(self).user() && final(self)@ == old(self)@,
            },
    {
        match event {
            WindowEvent::CloseRequested => ControlFlow::Exit,
            WindowEvent::Resized { width, height } => {
                self.graphics.context_mut().set_size((width, height));
                self.graphics.resize(width, height);
                self.user_state.resize(self.graphics.context_mut(), width, height);
                ControlFlow::Continue
            },
            WindowEvent::KeyboardInput { key, pressed } => {
                match key {
                    PhysicalKey::Code(code) => {
                        self.user_state.key(self.graphics.context_mut(), code, pressed);
                    },
                    PhysicalKey::Unidentified => {},
                }
                ControlFlow::Continue
            },
            WindowEvent::CursorMoved { x, y } => {
                self.user_state.cursor(self.graphics.context_mut(), x, y);
                ControlFlow::Continue
            },
            WindowEvent::RedrawRequested { acquired } => {
                match self.graphics.render(&self.user_state, acquired) {
                    Ok(_) => ControlFlow::Continue,
                    Err(SurfaceError::Lost) => {
                        self.graphics.resize_own();
                        ControlFlow::Continue
                    },
                    Err(SurfaceError::OutOfMemory) => ControlFlow::Exit,
                    Err(SurfaceError::Other) => ControlFlow::Continue,
                }
            },
            WindowEvent::Other => ControlFlow::Continue,
        }
    }

    /// Moves the time of the last update to `now`, in nanoseconds, and
    /// returns the time that has passed since. A `now` before the last
    /// update counts as no time passed.
    pub fn tick(&mut self, now: u128) -> (delta: u128)
        ensures
            delta == if now >= old(self)@.last_time {
                now - old(self)@.last_time
            } else {
                0
            },
            final(self)@ == (WindowStateView { last_time: now, ..old(self)@ }),
            final(self).user() == old(self).user(),
    {
        let delta = if now >= self.last_time {
            now - self.last_time
        } else {
            0
        };
        self.last_time = now;
        delta
    }

    /// Updates the application with the time that has passed since the
    /// last update, as [`WindowState::tick`] counts it up to `now`, and asks
    /// the window for a redraw.
    pub fn update(&mut self, now: u128)
        ensures
            final(self)@.last_time == now,
            final(self)@.graphics.config == old(self)@.graphics.config,
            final(self)@.graphics.context.pending.len() > 0,
            final(self)@.graphics.context.pending.last() == RequestView::RequestRedraw,
    {
        let delta = self.tick(now);
        self.user_state.update(self.graphics.context_mut(), delta);
        self.graphics.context_mut().request_redraw();
    }

    /// The application, to read.
    pub fn user_state(&self) -> (user_state: &T)
        ensures
            *user_state == self.user(),
    {
        &self.user_state
    }

    /// The graphics state, to read.
    pub fn graphics(&self) -> (graphics: &GraphicsState)
        ensures
            graphics@ == self@.graphics,
    {
        &self.graphics
    }

    /// Hands over the requests that wait for the driver and the window,
    /// oldest first, and leaves the queue empty.
    pub fn take_requests(&mut self) -> (requests: Vec<Request>)
        ensures
            crate::driver::request_views(requests@) == old(self)@.graphics.context.pending,
            final(self).user() == old(self).user(),
            final(self)@.last_time == old(self)@.last_time,
            final(self)@.graphics.config == old(self)@.graphics.config,
            final(self)@.graphics.context == (crate::context::ContextView {
                pending: Seq::<RequestView>::empty(),
                ..old(self)@.graphics.context
            }),
    {
        self.graphics.context_mut().take_requests()
    }
}

} // verus!
