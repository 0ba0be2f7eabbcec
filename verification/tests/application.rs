use surface_presenter::application::Application;
use surface_presenter::color::{ClearColor, Palette};
use surface_presenter::config::{Config, FramePolicy, Recovery};
use surface_presenter::controller::{Action, Event, RunState};
use surface_presenter::device::DeviceContext;
use surface_presenter::render::{DrawError, LoadOp, RenderStep, StoreOp};
use surface_presenter::surface::{ConfigureError, SurfaceFault};

type App = Application<&'static str, &'static str, u8, u8, u16, u32>;

const COLOR_A: ClearColor = ClearColor { red: 50, green: 50, blue: 50, alpha: 1000 };
const COLOR_B: ClearColor = ClearColor { red: 900, green: 100, blue: 100, alpha: 1000 };
const LOST: DrawError = DrawError::SurfaceUnavailable(SurfaceFault::Lost);

fn start(config: Config, width: u32, height: u32) -> App {
    let context = DeviceContext::initialize(Some(1u8), Some((2u16, 3u32))).unwrap();
    Application::new("window", "surface", context, config, width, height)
}

fn clearing_steps(format: u8, color: ClearColor) -> Vec<RenderStep<u8>> {
    vec![
        RenderStep::CreateView { format },
        RenderStep::BeginRecording,
        RenderStep::BeginPass { load: LoadOp::Clear(color), store: StoreOp::Store },
        RenderStep::EndPass,
        RenderStep::Submit,
        RenderStep::Present,
    ]
}

#[test]
fn new_application_owns_its_parts() {
    let app = start(Config::default(), 800, 600);
    assert_eq!(*app.window(), "window");
    assert_eq!(*app.surface(), "surface");
    assert_eq!(*app.context().adapter(), 1);
    assert_eq!(*app.context().device(), 2);
    assert_eq!(*app.context().queue(), 3);
    assert_eq!(app.descriptor(), None);
    assert_eq!(app.controller().window_size(), (800, 600));
    assert!(app.controller().is_running());
    assert!(!app.uses_pipeline());
    assert_eq!(app.into_window(), "window");
}

#[test]
fn reconfigure_uses_the_size_of_the_window() {
    let mut app = start(Config::default(), 800, 600);
    let descriptor = app.reconfigure_surface(&[5, 6]).unwrap();
    assert_eq!((descriptor.width, descriptor.height, descriptor.format), (800, 600, 5));
    assert_eq!(app.descriptor(), Some(descriptor));
}

#[test]
fn reconfigure_of_window_without_area_is_refused() {
    let mut app = start(Config::default(), 0, 600);
    assert_eq!(app.reconfigure_surface(&[5]), Err(ConfigureError::ZeroSize));
    assert_eq!(app.descriptor(), None);
}

#[test]
fn reconfigure_without_formats_is_refused() {
    let mut app = start(Config::default(), 800, 600);
    assert_eq!(app.reconfigure_surface(&[]), Err(ConfigureError::NoSupportedFormat));
    assert_eq!(app.descriptor(), None);
}

#[test]
fn draw_right_after_reconfigure_succeeds() {
    let mut app = start(Config::default(), 800, 600);
    app.reconfigure_surface(&[5, 6]).unwrap();
    assert_eq!(app.handle_event(Event::RedrawRequested), Action::Render { color: COLOR_A });
    let recorded = app.draw(Ok("image")).unwrap();
    assert_eq!(recorded.image, "image");
    assert_eq!(recorded.steps, clearing_steps(5, COLOR_A));
}

#[test]
fn draw_with_pipeline_binds_and_draws() {
    let mut app = start(Config::default().with_pipeline(true), 800, 600);
    assert!(app.uses_pipeline());
    app.reconfigure_surface(&[5]).unwrap();
    let recorded = app.draw(Ok(())).unwrap();
    assert_eq!(recorded.steps.len(), 8);
    assert_eq!(recorded.steps[3], RenderStep::BindPipeline);
    assert_eq!(recorded.steps[4], RenderStep::Draw);
}

#[test]
fn draw_on_unconfigured_surface_is_refused() {
    let mut app = start(Config::default(), 800, 600);
    assert_eq!(app.draw(Ok("image")).unwrap_err(), DrawError::SurfaceNotFitted);
    assert_eq!(
        app.draw::<&str>(Err(SurfaceFault::Lost)).unwrap_err(),
        DrawError::SurfaceNotFitted
    );
}

#[test]
fn draw_passes_each_fault_on() {
    let faults = [
        SurfaceFault::Lost,
        SurfaceFault::Outdated,
        SurfaceFault::TimedOut,
        SurfaceFault::OutOfMemory,
        SurfaceFault::Other,
    ];
    for &fault in faults.iter() {
        let mut app = start(Config::default(), 800, 600);
        app.reconfigure_surface(&[5]).unwrap();
        assert_eq!(
            app.draw::<&str>(Err(fault)).unwrap_err(),
            DrawError::SurfaceUnavailable(fault)
        );
    }
}

#[test]
fn resize_is_configured_before_the_next_frame_is_drawn() {
    // The window starts at 800 by 600 and is then resized to 400 by 300.
    let mut app = start(Config::default(), 800, 600);
    app.reconfigure_surface(&[5]).unwrap();
    assert!(app.draw(Ok("first")).is_ok());

    assert_eq!(
        app.handle_event(Event::Resized { width: 400, height: 300 }),
        Action::Configure { width: 400, height: 300 }
    );
    // Before the configuration is made, a redraw is not rendered and a frame
    // is not drawn.
    assert_eq!(
        app.handle_event(Event::RedrawRequested),
        Action::Configure { width: 400, height: 300 }
    );
    assert_eq!(app.draw(Ok("too early")).unwrap_err(), DrawError::SurfaceNotFitted);

    let descriptor = app.reconfigure_surface(&[5]).unwrap();
    assert_eq!((descriptor.width, descriptor.height), (400, 300));
    assert_eq!(app.handle_event(Event::RedrawRequested), Action::Render { color: COLOR_A });
    assert_eq!(app.draw(Ok("second")).unwrap().image, "second");
}

#[test]
fn two_presses_show_two_colors() {
    let palette = Palette::new(COLOR_A, COLOR_B).unwrap();
    let config = Config::default().with_cursor_toggle(true).with_palette(palette);
    let mut app = start(config, 800, 600);
    app.reconfigure_surface(&[5]).unwrap();
    assert!(!app.controller().cursor_visible());

    assert_eq!(app.handle_event(Event::PointerPressed), Action::RequestRedraw);
    assert!(app.controller().cursor_visible());
    assert_eq!(app.handle_event(Event::RedrawRequested), Action::Render { color: COLOR_B });
    let first = app.draw(Ok(())).unwrap();

    assert_eq!(app.handle_event(Event::PointerPressed), Action::RequestRedraw);
    assert!(!app.controller().cursor_visible());
    assert_eq!(app.handle_event(Event::RedrawRequested), Action::Render { color: COLOR_A });
    let second = app.draw(Ok(())).unwrap();

    assert_eq!(first.steps, clearing_steps(5, COLOR_B));
    assert_eq!(second.steps, clearing_steps(5, COLOR_A));
    assert_ne!(first.steps, second.steps);
}

#[test]
fn lost_surface_is_survived_when_failures_are_logged() {
    let mut app = start(Config::default(), 800, 600);
    app.reconfigure_surface(&[5]).unwrap();

    assert_eq!(app.handle_event(Event::RedrawRequested), Action::Render { color: COLOR_A });
    let error = app.draw::<&str>(Err(SurfaceFault::Lost)).unwrap_err();
    assert_eq!(error, LOST);
    assert_eq!(app.handle_event(Event::FrameFailed { error }), Action::LogFailure);
    assert_eq!(app.controller().run_state(), RunState::Running);

    assert_eq!(app.handle_event(Event::RedrawRequested), Action::Render { color: COLOR_A });
    let recorded = app.draw(Ok("image")).unwrap();
    assert_eq!(recorded.image, "image");
    assert_eq!(recorded.steps, clearing_steps(5, COLOR_A));
    assert_eq!(app.handle_event(Event::FramePresented), Action::Idle);
    assert_eq!(app.controller().run_state(), RunState::Running);
    assert_eq!(app.handle_event(Event::CloseRequested), Action::Exit { code: 1 });
}

#[test]
fn lost_surface_ends_the_program_when_failures_are_fatal() {
    let mut app = start(Config::default().with_policy(FramePolicy::Fatal), 800, 600);
    app.reconfigure_surface(&[5]).unwrap();
    let error = app.draw::<&str>(Err(SurfaceFault::Lost)).unwrap_err();
    assert_eq!(
        app.handle_event(Event::FrameFailed { error }),
        Action::LogFailureAndExit { code: 1 }
    );
    assert_eq!(app.controller().run_state(), RunState::ExitRequested);
}

#[test]
fn events_leave_the_surface_alone() {
    let mut app = start(Config::default(), 800, 600);
    let descriptor = app.reconfigure_surface(&[5]).unwrap();
    app.handle_event(Event::Resized { width: 1, height: 2 });
    app.handle_event(Event::FrameFailed { error: LOST });
    app.handle_event(Event::CloseRequested);
    assert_eq!(app.descriptor(), Some(descriptor));
}

#[test]
fn lost_surface_is_recovered_by_reconfiguring_once() {
    let config = Config::default().with_recovery(Recovery::ReconfigureOnce);
    let mut app = start(config, 800, 600);
    app.reconfigure_surface(&[5]).unwrap();

    assert_eq!(app.handle_event(Event::RedrawRequested), Action::Render { color: COLOR_A });
    let error = app.draw::<&str>(Err(SurfaceFault::Lost)).unwrap_err();
    assert_eq!(
        app.handle_event(Event::FrameFailed { error }),
        Action::Recover { width: 800, height: 600 }
    );
    // The adapter prefers another format by now.
    let descriptor = app.reconfigure_surface(&[6, 5]).unwrap();
    assert_eq!((descriptor.width, descriptor.height, descriptor.format), (800, 600, 6));

    assert_eq!(app.handle_event(Event::RedrawRequested), Action::Render { color: COLOR_A });
    let recorded = app.draw(Ok("image")).unwrap();
    assert_eq!(recorded.steps, clearing_steps(6, COLOR_A));
    assert_eq!(app.handle_event(Event::FramePresented), Action::Idle);
    assert_eq!(app.handle_event(Event::CloseRequested), Action::Exit { code: 0 });
}

#[test]
fn draw_too_early_is_recovered_by_reconfiguring() {
    let config = Config::default().with_recovery(Recovery::ReconfigureOnce);
    let mut app = start(config, 800, 600);
    let error = app.draw(Ok("too early")).unwrap_err();
    assert_eq!(error, DrawError::SurfaceNotFitted);
    assert_eq!(
        app.handle_event(Event::FrameFailed { error }),
        Action::Recover { width: 800, height: 600 }
    );
    app.reconfigure_surface(&[5]).unwrap();
    assert!(app.draw(Ok("in time")).is_ok());
}
