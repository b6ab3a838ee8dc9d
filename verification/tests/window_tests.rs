use ferrous_gl::window::RobustnessPolicy;
use ferrous_gl::DriverCall;
use ferrous_gl::FrameLoop;
use ferrous_gl::GlConfig;
use ferrous_gl::LoopAction;
use ferrous_gl::WindowConfig;

#[test]
fn window_config_default_matches_the_documented_values() {
    let config = WindowConfig::default();
    assert_eq!(config.size, (800, 600));
    assert_eq!(config.position, (100, 100));
    assert_eq!(config.title, "FerrousGL Window");
    assert!(!config.fullscreen);
    assert!(config.decorated);
    assert!(!config.translucent);
    assert!(!config.clickthrough);
    assert!(!config.always_on_top);
    assert!(!config.hide_cursor);
    assert!(!config.vsync);
    assert_eq!(config.framerate, None);
}

#[test]
fn gl_config_default_requests_4_6_losing_context_on_reset() {
    let config = GlConfig::default();
    assert_eq!(config.version_major, 4);
    assert_eq!(config.version_minor, 6);
    assert_eq!(config.robustness, RobustnessPolicy::RobustLoseContextOnReset);
}

#[test]
fn first_resume_initializes_graphics_exactly_once() {
    let mut frame_loop = FrameLoop::new(None);
    assert!(!frame_loop.is_initialized());
    assert_eq!(
        frame_loop.on_resumed(),
        vec![LoopAction::InitializeGraphics, LoopAction::RequestRedraw]
    );
    assert!(frame_loop.is_initialized());
    // Every later resume signal does nothing.
    assert_eq!(frame_loop.on_resumed(), Vec::<LoopAction>::new());
    assert_eq!(frame_loop.on_resumed(), Vec::<LoopAction>::new());
}

#[test]
fn frame_pacing_at_sixty_fps_converges_to_the_budget() {
    let mut frame_loop = FrameLoop::new(Some(60));
    // An instantaneous callback: the whole budget is slept and the
    // reported frame time is exactly the budget, 1,000,000 / 60 µs.
    let sleep = frame_loop.begin_frame(0);
    assert_eq!(sleep, 16_666);
    assert_eq!(frame_loop.get_frame_time(), 16_666);

    // A frame that spent part of the budget sleeps the remainder.
    let sleep = frame_loop.begin_frame(16_000);
    assert_eq!(sleep, 666);
    assert_eq!(frame_loop.get_frame_time(), 16_666);

    // A slow frame reports its true elapsed time and never sleeps.
    let sleep = frame_loop.begin_frame(20_000);
    assert_eq!(sleep, 0);
    assert_eq!(frame_loop.get_frame_time(), 20_000);
}

#[test]
fn reported_frame_time_never_falls_below_the_budget() {
    let mut frame_loop = FrameLoop::new(Some(60));
    for elapsed in [0u64, 1, 100, 9_999, 16_665, 16_666, 16_667, 50_000] {
        frame_loop.begin_frame(elapsed);
        assert!(frame_loop.get_frame_time() >= 16_666);
    }
}

#[test]
fn without_a_framerate_cap_the_true_elapsed_time_is_reported() {
    let mut frame_loop = FrameLoop::new(None);
    let sleep = frame_loop.begin_frame(123);
    assert_eq!(sleep, 0);
    assert_eq!(frame_loop.get_frame_time(), 123);
}

#[test]
fn just_initialized_is_true_for_exactly_one_frame() {
    let mut frame_loop = FrameLoop::new(None);
    frame_loop.on_resumed();
    assert!(frame_loop.just_initialized());
    assert_eq!(frame_loop.get_frames_count(), 0);

    frame_loop.begin_frame(0);
    // Still inside the first frame: the callback sees it as setup.
    assert!(frame_loop.just_initialized());

    assert_eq!(
        frame_loop.end_frame(),
        vec![LoopAction::SwapBuffers, LoopAction::RequestRedraw]
    );
    assert!(!frame_loop.just_initialized());
    assert_eq!(frame_loop.get_frames_count(), 1);

    for _ in 0..5 {
        frame_loop.begin_frame(1_000);
        frame_loop.end_frame();
        assert!(!frame_loop.just_initialized());
    }
    assert_eq!(frame_loop.get_frames_count(), 6);
}

#[test]
fn resize_is_ignored_until_a_surface_exists() {
    let mut frame_loop = FrameLoop::new(None);
    assert_eq!(frame_loop.on_resized(640, 480), None);
    frame_loop.on_resumed();
    assert_eq!(
        frame_loop.on_resized(640, 480),
        Some(LoopAction::ResizeSurface { width: 640, height: 480 })
    );
}

#[test]
fn close_request_stops_the_loop() {
    let mut frame_loop = FrameLoop::new(None);
    assert!(frame_loop.is_running());
    assert_eq!(frame_loop.on_close_requested(), vec![LoopAction::ExitLoop]);
    assert!(!frame_loop.is_running());
}

#[test]
fn viewport_is_ignored_until_a_window_exists() {
    let mut frame_loop = FrameLoop::new(None);
    assert_eq!(frame_loop.set_opengl_viewport((320, 200)), None);
    frame_loop.on_resumed();
    assert_eq!(
        frame_loop.set_opengl_viewport((320, 200)),
        Some(DriverCall::SetViewport { width: 320, height: 200 })
    );
}

#[test]
fn clear_color_sets_state_and_clears_both_buffers() {
    let frame_loop = FrameLoop::new(None);
    let r = 0.1f32.to_bits();
    let g = 0.2f32.to_bits();
    let b = 0.3f32.to_bits();
    let a = 1.0f32.to_bits();
    assert_eq!(
        frame_loop.clear_color(r, g, b, a),
        vec![
            DriverCall::SetClearColor { red: r, green: g, blue: b, alpha: a },
            DriverCall::EnableDepthTest,
            DriverCall::ClearColorAndDepthBuffers,
        ]
    );
}
