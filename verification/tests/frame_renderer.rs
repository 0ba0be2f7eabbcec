use surface_presenter::color::ClearColor;
use surface_presenter::render::{
    FrameRenderer, LoadOp, RenderError, RenderStep, StoreOp,
};
use surface_presenter::surface::SurfaceManager;

fn configured(format: u8) -> SurfaceManager<(), u8> {
    let mut manager = SurfaceManager::new(());
    manager.configure(&[format, 99], 800, 600).unwrap();
    manager
}

fn clearing_steps(format: u8, color: ClearColor) -> Vec<RenderStep<u8>> {
    vec![
        RenderStep::CreateView { format },
        RenderStep::BeginRecording,
        RenderStep::BeginPass { load: LoadOp::Clear(color), store: StoreOp::Store },
        RenderStep::EndPass,
        RenderStep::Submit,
        RenderStep::Present,
    ]
}

#[test]
fn render_records_one_clearing_pass() {
    let mut manager = configured(7);
    let frame = manager.acquire_frame(Ok("image")).unwrap();
    let color = ClearColor { red: 50, green: 50, blue: 50, alpha: 1000 };
    let recorded = FrameRenderer::new(false).render(&mut manager, frame, color).unwrap();
    assert_eq!(recorded.image, "image");
    assert_eq!(recorded.steps, clearing_steps(7, color));
}

#[test]
fn steps_without_frame() {
    let color = ClearColor::opaque(9, 8, 7);
    assert_eq!(FrameRenderer::new(false).steps(3u8, color), clearing_steps(3, color));
}

#[test]
fn render_pins_view_format_to_current_configuration() {
    let mut manager = configured(7);
    manager.configure(&[11, 7], 400, 300).unwrap();
    let frame = manager.acquire_frame(Ok(())).unwrap();
    let recorded =
        FrameRenderer::new(false).render(&mut manager, frame, ClearColor::ambient()).unwrap();
    assert_eq!(recorded.steps[0], RenderStep::CreateView { format: 11 });
}

#[test]
fn render_with_pipeline_draws_degenerate_geometry() {
    let renderer = FrameRenderer::new(true);
    assert!(renderer.uses_pipeline());
    let mut manager = configured(7);
    let frame = manager.acquire_frame(Ok(())).unwrap();
    let color = ClearColor::opaque(1, 2, 3);
    let recorded = renderer.render(&mut manager, frame, color).unwrap();
    assert_eq!(
        recorded.steps,
        vec![
            RenderStep::CreateView { format: 7 },
            RenderStep::BeginRecording,
            RenderStep::BeginPass { load: LoadOp::Clear(color), store: StoreOp::Store },
            RenderStep::BindPipeline,
            RenderStep::Draw,
            RenderStep::EndPass,
            RenderStep::Submit,
            RenderStep::Present,
        ]
    );
}

#[test]
fn renderer_without_pipeline_draws_nothing() {
    let renderer = FrameRenderer::new(false);
    assert!(!renderer.uses_pipeline());
    let steps = renderer.steps(0u8, ClearColor::ambient());
    assert!(!steps.contains(&RenderStep::Draw));
    assert!(!steps.contains(&RenderStep::BindPipeline));
}

#[test]
fn every_frame_has_one_pass_and_is_presented_last() {
    for pipeline in [false, true] {
        let steps = FrameRenderer::new(pipeline).steps(0u8, ClearColor::ambient());
        let passes =
            steps.iter().filter(|step| matches!(step, RenderStep::BeginPass { .. })).count();
        let presentations = steps.iter().filter(|step| **step == RenderStep::Present).count();
        assert_eq!(passes, 1);
        assert_eq!(presentations, 1);
        assert_eq!(steps[steps.len() - 1], RenderStep::Present);
        assert_eq!(steps[steps.len() - 2], RenderStep::Submit);
        assert_eq!(steps[steps.len() - 3], RenderStep::EndPass);
    }
}

#[test]
fn render_retires_the_frame() {
    let mut manager = configured(7);
    let frame = manager.acquire_frame(Ok(())).unwrap();
    assert!(manager.has_outstanding_frame());
    FrameRenderer::new(false).render(&mut manager, frame, ClearColor::ambient()).unwrap();
    assert!(!manager.has_outstanding_frame());
}

#[test]
fn frame_held_across_next_acquire_is_stale() {
    let mut manager = configured(7);
    let held = manager.acquire_frame(Ok("held")).unwrap();
    let live = manager.acquire_frame(Ok("live")).unwrap();
    let renderer = FrameRenderer::new(false);
    assert_eq!(
        renderer.render(&mut manager, held, ClearColor::ambient()).unwrap_err(),
        RenderError::StaleFrame
    );
    assert!(manager.has_outstanding_frame());
    let recorded = renderer.render(&mut manager, live, ClearColor::ambient()).unwrap();
    assert_eq!(recorded.image, "live");
}

#[test]
fn frame_held_across_configure_is_stale() {
    let mut manager = configured(7);
    let held = manager.acquire_frame(Ok(())).unwrap();
    manager.configure(&[7], 400, 300).unwrap();
    assert_eq!(
        FrameRenderer::new(false).render(&mut manager, held, ClearColor::ambient()).unwrap_err(),
        RenderError::StaleFrame
    );
}

#[test]
fn handle_with_consumed_serial_is_refused() {
    // Two surfaces hand out the same serial. Once this surface has consumed
    // its frame, a handle with that serial is refused.
    let mut manager = configured(7);
    let mut other = configured(7);
    let frame = manager.acquire_frame(Ok("mine")).unwrap();
    let twin = other.acquire_frame(Ok("twin")).unwrap();
    assert_eq!(frame.serial(), twin.serial());
    let renderer = FrameRenderer::new(false);
    renderer.render(&mut manager, frame, ClearColor::ambient()).unwrap();
    assert_eq!(
        renderer.render(&mut manager, twin, ClearColor::ambient()).unwrap_err(),
        RenderError::StaleFrame
    );
}

#[test]
fn two_renders_with_equal_inputs_record_the_same() {
    let color = ClearColor { red: 10, green: 20, blue: 30, alpha: 1000 };
    let renderer = FrameRenderer::new(false);
    let mut first = configured(7);
    let mut second = configured(7);
    // The books of the two surfaces differ: the record must not.
    let warm_up = second.acquire_frame(Ok("warm-up")).unwrap();
    second.discard(warm_up);
    let a = first.acquire_frame(Ok("image")).unwrap();
    let b = second.acquire_frame(Ok("image")).unwrap();
    assert_ne!(a.serial(), b.serial());
    let a = renderer.render(&mut first, a, color).unwrap();
    let b = renderer.render(&mut second, b, color).unwrap();
    assert_eq!(a.image, b.image);
    assert_eq!(a.steps, b.steps);
}

#[test]
fn renders_with_different_colors_differ() {
    let renderer = FrameRenderer::new(false);
    let mut manager = configured(7);
    let frame = manager.acquire_frame(Ok(())).unwrap();
    let a = renderer.render(&mut manager, frame, ClearColor::opaque(0, 0, 0)).unwrap();
    let frame = manager.acquire_frame(Ok(())).unwrap();
    let b = renderer.render(&mut manager, frame, ClearColor::opaque(0, 0, 1)).unwrap();
    assert_ne!(a.steps, b.steps);
}
