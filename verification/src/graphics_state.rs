//! The surface that frames are presented to, and how it is configured.

use crate::context::{Context, ContextView};
use crate::driver::{Request, RequestView};
use crate::frame::{Frame, SurfaceError};
use crate::texture::TextureUsages;
use crate::State;
use vstd::prelude::*;

verus! {

/// A color format that a surface offers: the number the driver knows it by,
/// and whether it stores sRGB-encoded color.
#[derive(Clone, Copy, Debug, PartialEq, Eq, Structural)]
pub struct SurfaceFormat {
    pub code: u32,
    pub srgb: bool,
}

/// How a surface hands frames to the display, by the number the driver
/// knows the mode by.
#[derive(Clone, Copy, Debug, PartialEq, Eq, Structural)]
pub struct PresentMode {
    pub code: u32,
}

/// How a surface treats the alpha channel, by the number the driver knows
/// the mode by.
#[derive(Clone, Copy, Debug, PartialEq, Eq, Structural)]
pub struct AlphaMode {
    pub code: u32,
}

/// What a surface offers, each list in the driver's order of preference.
#[derive(Debug, PartialEq, Eq)]
pub struct SurfaceCapabilities {
    pub formats: Vec<SurfaceFormat>,
    pub present_modes: Vec<PresentMode>,
    pub alpha_modes: Vec<AlphaMode>,
}

/// How a surface is configured. No view formats are asked for beyond the
/// format itself.
#[derive(Clone, Copy, Debug, PartialEq, Eq, Structural)]
pub struct SurfaceConfiguration {
    pub usage: TextureUsages,
    pub format: SurfaceFormat,
    pub width: u32,
    pub height: u32,
    pub present_mode: PresentMode,
    pub desired_maximum_frame_latency: u32,
    pub alpha_mode: AlphaMode,
}

/// Whether the format at position `k` of `formats` is sRGB and none before
/// it is.
pub open spec fn is_first_srgb(formats: Seq<SurfaceFormat>, k: int) -> bool {
    &&& 0 <= k < formats.len()
    &&& formats[k].srgb
    &&& forall|j: int| 0 <= j < k ==> !(#[trigger] formats[j]).srgb
}

/// The format that is taken of `formats`: the first that is sRGB, or the
/// first of all where none is.
pub open spec fn preferred_format(formats: Seq<SurfaceFormat>) -> SurfaceFormat {
    if exists|k: int| is_first_srgb(formats, k) {
        formats[choose|k: int| is_first_srgb(formats, k)]
    } else {
        formats[0]
    }
}

/// The configuration of a surface with what `formats`, `present_modes` and
/// `alpha_modes` offer, for a window of `width` by `height`: a render
/// target in the preferred format, the first present mode and the first
/// alpha mode, at most two frames in flight.
pub open spec fn surface_configuration(
    formats: Seq<SurfaceFormat>,
    present_modes: Seq<PresentMode>,
    alpha_modes: Seq<AlphaMode>,
    width: u32,
    height: u32,
) -> SurfaceConfiguration {
    SurfaceConfiguration {
        usage: TextureUsages { texture_binding: false, copy_dst: false, render_attachment: true },
        format: preferred_format(formats),
        width,
        height,
        present_mode: present_modes[0],
        desired_maximum_frame_latency: 2,
        alpha_mode: alpha_modes[0],
    }
}

/// Picks the configuration of a surface from what it offers.
pub fn create_surface_configuration(caps: &SurfaceCapabilities, width: u32, height: u32) -> (config:
    SurfaceConfiguration)
    requires
        caps.formats@.len() > 0,
        caps.present_modes@.len() > 0,
        caps.alpha_modes@.len() > 0,
    ensures
        config == surface_configuration(
            caps.formats@,
            caps.present_modes@,
            caps.alpha_modes@,
            width,
            height,
        ),
{
    let mut format = caps.formats[0];
    let mut i: usize = 0;
    while i < caps.formats.len()
        invariant_except_break
            i <= caps.formats@.len(),
            format == caps.formats@[0],
            forall|j: int| 0 <= j < i ==> !(#[trigger] caps.formats@[j]).srgb,
        invariant
            caps.formats@.len() > 0,
        ensures
            format == preferred_format(caps.formats@),
        decreases caps.formats@.len() - i,
    {
        if caps.formats[i].srgb {
            format = caps.formats[i];
            assert(is_first_srgb(caps.formats@, i as int));
            break ;
        }
        i = i + 1;
    }
    SurfaceConfiguration {
        usage: TextureUsages { texture_binding: false, copy_dst: false, render_attachment: true },
        format,
        width,
        height,
        present_mode: caps.present_modes[0],
        desired_maximum_frame_latency: 2,
        alpha_mode: caps.alpha_modes[0],
    }
}

/// What a [`GraphicsState`] holds.
pub struct GraphicsStateView {
    pub config: SurfaceConfiguration,
    pub context: ContextView,
}

impl GraphicsStateView {
    /// This state after its window was resized to `width` by `height`: a
    /// size without area changes nothing; any other size is taken over and
    /// the driver is asked to configure the surface with it.
    pub open spec fn resize(self, width: u32, height: u32) -> GraphicsStateView {
        if width > 0 && height > 0 {
            let config = SurfaceConfiguration { width, height, ..self.config };
            GraphicsStateView {
                config,
                context: self.context.enqueue(
                    RequestView::ConfigureSurface { configuration: config },
                ),
            }
        } else {
            self
        }
    }
}

/// The surface's configuration and the context that draws to it.
pub struct GraphicsState {
    config: SurfaceConfiguration,
    context: Context,
}

impl View for GraphicsState {
    type V = GraphicsStateView;

    closed spec fn view(&self) -> GraphicsStateView {
        GraphicsStateView { config: self.config, context: self.context@ }
    }
}

impl GraphicsState {
    /// The state for a surface that offers `caps`, in a window of `width`
    /// by `height`. The surface is not configured yet: the first resize
    /// does that.
    pub fn new(caps: &SurfaceCapabilities, width: u32, height: u32) -> (state: GraphicsState)
        requires
            caps.formats@.len() > 0,
            caps.present_modes@.len() > 0,
            caps.alpha_modes@.len() > 0,
        ensures
            state@.config == surface_configuration(
                caps.formats@,
                caps.present_modes@,
                caps.alpha_modes@,
                width,
                height,
            ),
            state@.context == (ContextView {
                format: preferred_format(caps.formats@),
                size: (width, height),
                keys: Set::<u32>::empty(),
                resources: Seq::<crate::driver::ResourceKind>::empty(),
                pending: Seq::<RequestView>::empty(),
            }),
    {
        let config = create_surface_configuration(caps, width, height);
        let context = Context::new(config.format, (width, height));
        GraphicsState { config, context }
    }

    /// The configuration of the surface.
    pub fn config(&self) -> (config: SurfaceConfiguration)
        ensures
            config == self@.config,
    {
        self.config
    }

    /// The context, to read.
    pub fn context(&self) -> (context: &Context)
        ensures
            context@ == self@.context,
    {
        &self.context
    }

    /// The context, to create things with.
    pub fn context_mut(&mut self) -> (context: &mut Context)
        ensures
            context@ == old(self)@.context,
            final(self)@ == (GraphicsStateView {
                config: old(self)@.config,
                context: final(context)@,
            }),
    {
        &mut self.context
    }

    /// Takes over the new size of the window. A size without area is
    /// ignored.
    pub fn resize(&mut self, width: u32, height: u32)
        ensures
            final(self)@ == old(self)@.resize(width, height),
    {
        if width > 0 && height > 0 {
            self.config.width = width;
            self.config.height = height;
            self.context.enqueue(Request::ConfigureSurface { configuration: self.config });
        }
    }

    /// Configures the surface again, with the size it has.
    pub fn resize_own(&mut self)
        ensures
            final(self)@ == old(self)@.resize(old(self)@.config.width, old(self)@.config.height),
    {
        self.resize(self.config.width, self.config.height);
    }

    /// Draws one frame: opens a frame on what was `acquired` of the
    /// surface, lets `user_state` record into it, and finishes it. Where no
    /// image was acquired the reason is handed on and nothing changes.
    /// Else the frame's passes, whatever `user_state` recorded, are
    /// submitted behind the requests that already wait, and the image is
    /// presented.
    pub fn render<T: State>(&mut self, user_state: &T, acquired: Result<(), SurfaceError>) -> (done:
        Result<(), SurfaceError>)
        ensures
            final(self)@.config == old(self)@.config,
            match acquired {
                Err(error) => done == Err::<(), SurfaceError>(error) && final(self)@ == old(self)@,
                Ok(_) => {
                    &&& done is Ok
                    &&& exists|passes: Seq<crate::pass::PassRecordView>|
                        final(self)@.context == #[trigger] old(self)@.context.enqueue(
                            RequestView::Submit { passes },
                        ).enqueue(RequestView::Present)
                },
            },
    {
        match Frame::new(acquired) {
            Ok(frame) => {
                let mut frame = frame;
                user_state.render(&mut frame);
                let ghost passes = frame@;
                frame.finish(&mut self.context);
                assert(self@.context == old(self)@.context.enqueue(
                    RequestView::Submit { passes },
                ).enqueue(RequestView::Present));
                Ok(())
            },
            Err(error) => Err(error),
        }
    }
}

} // verus!
