use grafx::context::Context;
use grafx::driver::Request;
use grafx::frame::{Frame, SurfaceError};
use grafx::graphics_state::{
    create_surface_configuration, AlphaMode, GraphicsState, PresentMode, SurfaceCapabilities,
    SurfaceConfiguration, SurfaceFormat,
};
use grafx::pass::Color;
use grafx::texture::TextureUsages;
use grafx::window_state::{ControlFlow, PhysicalKey, WindowEvent, WindowState};
use grafx::State;
use std::cell::RefCell;

#[derive(Debug, PartialEq)]
enum Call {
    New,
    Resize(u32, u32),
    Key(u32, bool),
    Cursor(u32, u32),
    Update(u128),
    Render,
}

struct Recorder {
    calls: RefCell<Vec<Call>>,
}

impl State for Recorder {
    fn new(context: &mut Context) -> Self {
        context.lock_cursor();
        Recorder { calls: RefCell::new(vec![Call::New]) }
    }

    fn resize(&mut self, _ctx: &mut Context, width: u32, height: u32) {
        self.calls.borrow_mut().push(Call::Resize(width, height));
    }

    fn key(&mut self, ctx: &mut Context, code: u32, pressed: bool) {
        ctx.set_key(code, pressed);
        self.calls.borrow_mut().push(Call::Key(code, pressed));
    }

    fn cursor(&mut self, _ctx: &mut Context, x: u32, y: u32) {
        self.calls.borrow_mut().push(Call::Cursor(x, y));
    }

    fn update(&mut self, _ctx: &mut Context, delta: u128) {
        self.calls.borrow_mut().push(Call::Update(delta));
    }

    fn render(&self, frame: &mut Frame) {
        self.calls.borrow_mut().push(Call::Render);
        let mut pass = frame.pass(Color { r: 0, g: 0, b: 0, a: 0 });
        pass.draw(0..3, 0..1);
    }
}

struct Idle;

impl State for Idle {
    fn new(_context: &mut Context) -> Self {
        Idle
    }

    fn render(&self, _frame: &mut Frame) {}
}

fn capabilities(srgb: &[bool]) -> SurfaceCapabilities {
    SurfaceCapabilities {
        formats: srgb
            .iter()
            .enumerate()
            .map(|(code, srgb)| SurfaceFormat { code: code as u32, srgb: *srgb })
            .collect(),
        present_modes: vec![PresentMode { code: 4 }, PresentMode { code: 2 }],
        alpha_modes: vec![AlphaMode { code: 9 }, AlphaMode { code: 1 }],
    }
}

fn configuration(format: SurfaceFormat, width: u32, height: u32) -> SurfaceConfiguration {
    SurfaceConfiguration {
        usage: TextureUsages { texture_binding: false, copy_dst: false, render_attachment: true },
        format,
        width,
        height,
        present_mode: PresentMode { code: 4 },
        desired_maximum_frame_latency: 2,
        alpha_mode: AlphaMode { code: 9 },
    }
}

fn window() -> WindowState<Recorder> {
    WindowState::new(&capabilities(&[false, true]), 800, 600, 1_000)
}

fn calls(state: &WindowState<Recorder>) -> Vec<Call> {
    state.user_state().calls.borrow_mut().drain(..).collect()
}

#[test]
fn the_first_srgb_format_is_taken() {
    let caps = capabilities(&[false, false, true, false, true]);
    let config = create_surface_configuration(&caps, 640, 480);
    assert_eq!(config, configuration(SurfaceFormat { code: 2, srgb: true }, 640, 480));
}

#[test]
fn without_an_srgb_format_the_first_is_taken() {
    let caps = capabilities(&[false, false, false]);
    let config = create_surface_configuration(&caps, 1, 1);
    assert_eq!(config, configuration(SurfaceFormat { code: 0, srgb: false }, 1, 1));
}

#[test]
fn a_single_format_is_taken_whatever_it_is() {
    assert_eq!(
        create_surface_configuration(&capabilities(&[true]), 0, 0).format,
        SurfaceFormat { code: 0, srgb: true }
    );
    assert_eq!(
        create_surface_configuration(&capabilities(&[false]), 0, 0).format,
        SurfaceFormat { code: 0, srgb: false }
    );
}

#[test]
fn graphics_state_starts_unconfigured() {
    let mut graphics = GraphicsState::new(&capabilities(&[false, true]), 800, 600);
    assert_eq!(graphics.config(), configuration(SurfaceFormat { code: 1, srgb: true }, 800, 600));
    assert_eq!(graphics.context().format(), SurfaceFormat { code: 1, srgb: true });
    assert_eq!(graphics.context().size(), (800, 600));
    assert!(graphics.context_mut().take_requests().is_empty());
}

#[test]
fn resize_configures_the_surface_with_the_new_size() {
    let mut graphics = GraphicsState::new(&capabilities(&[true]), 800, 600);
    graphics.resize(1024, 768);
    let expected = configuration(SurfaceFormat { code: 0, srgb: true }, 1024, 768);
    assert_eq!(graphics.config(), expected);
    assert_eq!(
        graphics.context_mut().take_requests(),
        vec![Request::ConfigureSurface { configuration: expected }]
    );
}

#[test]
fn resize_to_no_area_is_ignored() {
    let mut graphics = GraphicsState::new(&capabilities(&[true]), 800, 600);
    graphics.resize(0, 768);
    graphics.resize(1024, 0);
    graphics.resize(0, 0);
    assert_eq!(graphics.config(), configuration(SurfaceFormat { code: 0, srgb: true }, 800, 600));
    assert!(graphics.context_mut().take_requests().is_empty());
}

#[test]
fn resize_own_configures_with_the_size_at_hand() {
    let mut graphics = GraphicsState::new(&capabilities(&[true]), 800, 600);
    graphics.resize_own();
    let expected = configuration(SurfaceFormat { code: 0, srgb: true }, 800, 600);
    assert_eq!(graphics.config(), expected);
    assert_eq!(
        graphics.context_mut().take_requests(),
        vec![Request::ConfigureSurface { configuration: expected }]
    );
}

#[test]
fn render_on_a_lost_surface_changes_nothing() {
    let mut graphics = GraphicsState::new(&capabilities(&[true]), 800, 600);
    let config = graphics.config();
    let user = Recorder::new(graphics.context_mut());
    graphics.context_mut().take_requests();
    calls_of(&user);
    assert_eq!(graphics.render(&user, Err(SurfaceError::Lost)), Err(SurfaceError::Lost));
    assert_eq!(graphics.config(), config);
    assert!(graphics.context_mut().take_requests().is_empty());
    assert!(calls_of(&user).is_empty());

    graphics.resize_own();
    graphics.context_mut().take_requests();
    assert_eq!(graphics.render(&user, Ok(())), Ok(()));
    assert_eq!(calls_of(&user), vec![Call::Render]);
    assert_eq!(graphics.context_mut().take_requests().len(), 2);
}

fn calls_of(user: &Recorder) -> Vec<Call> {
    user.calls.borrow_mut().drain(..).collect()
}

#[test]
fn a_new_window_sets_the_application_up() {
    let mut state = window();
    assert_eq!(calls(&state), vec![Call::New]);
    assert_eq!(
        state.graphics().config(),
        configuration(SurfaceFormat { code: 1, srgb: true }, 800, 600)
    );
    assert_eq!(state.take_requests(), vec![Request::LockCursor]);
}

#[test]
fn close_request_ends_the_loop() {
    let mut state = window();
    calls(&state);
    state.take_requests();
    assert_eq!(state.event(WindowEvent::CloseRequested), ControlFlow::Exit);
    assert!(calls(&state).is_empty());
    assert!(state.take_requests().is_empty());
}

#[test]
fn resize_event_reaches_surface_and_application() {
    let mut state = window();
    calls(&state);
    state.take_requests();
    assert_eq!(state.event(WindowEvent::Resized { width: 300, height: 200 }), ControlFlow::Continue);
    let expected = configuration(SurfaceFormat { code: 1, srgb: true }, 300, 200);
    assert_eq!(state.graphics().config(), expected);
    assert_eq!(state.graphics().context().size(), (300, 200));
    assert_eq!(calls(&state), vec![Call::Resize(300, 200)]);
    assert_eq!(state.take_requests(), vec![Request::ConfigureSurface { configuration: expected }]);
}

#[test]
fn resize_event_without_area_reaches_the_application_only() {
    let mut state = window();
    calls(&state);
    state.take_requests();
    assert_eq!(state.event(WindowEvent::Resized { width: 0, height: 0 }), ControlFlow::Continue);
    assert_eq!(
        state.graphics().config(),
        configuration(SurfaceFormat { code: 1, srgb: true }, 800, 600)
    );
    assert_eq!(state.graphics().context().size(), (0, 0));
    assert_eq!(calls(&state), vec![Call::Resize(0, 0)]);
    assert!(state.take_requests().is_empty());
}

#[test]
fn keys_with_a_code_reach_the_application() {
    let mut state = window();
    calls(&state);
    let down = WindowEvent::KeyboardInput { key: PhysicalKey::Code(17), pressed: true };
    let up = WindowEvent::KeyboardInput { key: PhysicalKey::Code(17), pressed: false };
    let unknown = WindowEvent::KeyboardInput { key: PhysicalKey::Unidentified, pressed: true };
    assert_eq!(state.event(down), ControlFlow::Continue);
    assert!(state.graphics().context().key(17));
    assert_eq!(state.event(unknown), ControlFlow::Continue);
    assert_eq!(state.event(up), ControlFlow::Continue);
    assert!(!state.graphics().context().key(17));
    assert_eq!(calls(&state), vec![Call::Key(17, true), Call::Key(17, false)]);
}

#[test]
fn cursor_moves_reach_the_application() {
    let mut state = window();
    calls(&state);
    let x = 12.5f32.to_bits();
    let y = 700.25f32.to_bits();
    assert_eq!(state.event(WindowEvent::CursorMoved { x, y }), ControlFlow::Continue);
    assert_eq!(calls(&state), vec![Call::Cursor(x, y)]);
}

#[test]
fn redraw_on_an_acquired_image_submits_the_frame() {
    let mut state = window();
    calls(&state);
    state.take_requests();
    assert_eq!(
        state.event(WindowEvent::RedrawRequested { acquired: Ok(()) }),
        ControlFlow::Continue
    );
    assert_eq!(calls(&state), vec![Call::Render]);
    let requests = state.take_requests();
    assert_eq!(requests.len(), 2);
    match &requests[0] {
        Request::Submit { passes } => {
            assert_eq!(passes.len(), 1);
            assert_eq!(passes[0].commands.len(), 1);
        }
        other => panic!("{:?}", other),
    }
    assert_eq!(requests[1], Request::Present);
}

#[test]
fn redraw_on_a_lost_surface_configures_it_again() {
    let mut state = window();
    calls(&state);
    state.take_requests();
    assert_eq!(
        state.event(WindowEvent::RedrawRequested { acquired: Err(SurfaceError::Lost) }),
        ControlFlow::Continue
    );
    assert!(calls(&state).is_empty());
    let config = configuration(SurfaceFormat { code: 1, srgb: true }, 800, 600);
    assert_eq!(state.graphics().config(), config);
    assert_eq!(state.take_requests(), vec![Request::ConfigureSurface { configuration: config }]);

    assert_eq!(
        state.event(WindowEvent::RedrawRequested { acquired: Ok(()) }),
        ControlFlow::Continue
    );
    assert_eq!(calls(&state), vec![Call::Render]);
}

#[test]
fn redraw_without_memory_ends_the_loop() {
    let mut state = window();
    calls(&state);
    state.take_requests();
    assert_eq!(
        state.event(WindowEvent::RedrawRequested { acquired: Err(SurfaceError::OutOfMemory) }),
        ControlFlow::Exit
    );
    assert!(calls(&state).is_empty());
    assert!(state.take_requests().is_empty());
}

#[test]
fn any_other_failure_drops_the_frame() {
    let mut state = window();
    calls(&state);
    state.take_requests();
    assert_eq!(
        state.event(WindowEvent::RedrawRequested { acquired: Err(SurfaceError::Other) }),
        ControlFlow::Continue
    );
    assert!(calls(&state).is_empty());
    assert!(state.take_requests().is_empty());
}

#[test]
fn other_events_are_ignored() {
    let mut state = window();
    calls(&state);
    state.take_requests();
    assert_eq!(state.event(WindowEvent::Other), ControlFlow::Continue);
    assert!(calls(&state).is_empty());
    assert!(state.take_requests().is_empty());
}

#[test]
fn update_passes_the_time_since_the_last_update() {
    let mut state = window();
    calls(&state);
    state.take_requests();
    state.update(1_500);
    state.update(4_000);
    state.update(3_000);
    state.update(3_001);
    assert_eq!(
        calls(&state),
        vec![Call::Update(500), Call::Update(2_500), Call::Update(0), Call::Update(1)]
    );
    assert_eq!(
        state.take_requests(),
        vec![
            Request::RequestRedraw,
            Request::RequestRedraw,
            Request::RequestRedraw,
            Request::RequestRedraw
        ]
    );
}

#[test]
fn tick_counts_the_time_since_the_last_update() {
    let mut state = window();
    calls(&state);
    state.take_requests();
    assert_eq!(state.tick(1_000), 0);
    assert_eq!(state.tick(1_750), 750);
    assert_eq!(state.tick(1_749), 0);
    assert_eq!(state.tick(u128::MAX), u128::MAX - 1_749);
    assert_eq!(state.tick(0), 0);
    assert_eq!(state.tick(5), 5);
    assert!(calls(&state).is_empty());
    assert!(state.take_requests().is_empty());
}

#[test]
fn an_application_may_leave_the_optional_calls_out() {
    let mut state: WindowState<Idle> = WindowState::new(&capabilities(&[true]), 10, 10, 0);
    assert_eq!(state.event(WindowEvent::Resized { width: 20, height: 20 }), ControlFlow::Continue);
    let key = WindowEvent::KeyboardInput { key: PhysicalKey::Code(1), pressed: true };
    assert_eq!(state.event(key), ControlFlow::Continue);
    assert_eq!(state.event(WindowEvent::CursorMoved { x: 0, y: 0 }), ControlFlow::Continue);
    state.update(5);
    assert_eq!(
        state.event(WindowEvent::RedrawRequested { acquired: Ok(()) }),
        ControlFlow::Continue
    );
    assert_eq!(
        state.take_requests(),
        vec![
            Request::ConfigureSurface {
                configuration: configuration(SurfaceFormat { code: 0, srgb: true }, 20, 20)
            },
            Request::RequestRedraw,
            Request::Submit { passes: vec![] },
            Request::Present,
        ]
    );
}
