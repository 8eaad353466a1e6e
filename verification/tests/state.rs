use physicsrenderer::input::{CameraController, KeyCode, WindowEvent};
use physicsrenderer::state::{choose_surface_format, Command, State, SurfaceError, MAX_DIMENSION};

#[test]
fn new_state_takes_the_window_size_unclamped() {
    let state = State::new(1920, 1080);
    assert_eq!(state.width, 1920);
    assert_eq!(state.height, 1080);
    assert!(state.is_surface_configured);
    assert_eq!(state.camera_controller, CameraController::new());
}

#[test]
fn resize_takes_over_a_small_size() {
    let mut state = State::new(100, 100);
    assert_eq!(state.resize(640, 480), Some((640, 480)));
    assert_eq!(state.width, 640);
    assert_eq!(state.height, 480);
    assert!(state.is_surface_configured);
}

#[test]
fn resize_clamps_each_dimension_to_the_maximum() {
    assert_eq!(MAX_DIMENSION, 800);
    let mut state = State::new(100, 100);
    assert_eq!(state.resize(1920, 1080), Some((800, 800)));
    assert_eq!((state.width, state.height), (800, 800));
    assert_eq!(state.resize(801, 799), Some((800, 799)));
    assert_eq!((state.width, state.height), (800, 799));
    assert_eq!(state.resize(800, u32::MAX), Some((800, 800)));
    assert_eq!(state.resize(1, 1), Some((1, 1)));
    assert_eq!((state.width, state.height), (1, 1));
}

#[test]
fn resize_ignores_an_empty_size() {
    let mut state = State::new(300, 200);
    state.is_surface_configured = false;
    let before = state;
    assert_eq!(state.resize(0, 480), None);
    assert_eq!(state, before);
    assert_eq!(state.resize(640, 0), None);
    assert_eq!(state, before);
    assert_eq!(state.resize(0, 0), None);
    assert_eq!(state, before);
}

#[test]
fn resize_marks_the_surface_configured() {
    let mut state = State::new(300, 200);
    state.is_surface_configured = false;
    assert_eq!(state.resize(10, 20), Some((10, 20)));
    assert!(state.is_surface_configured);
}

#[test]
fn handle_key_acts_on_presses_only() {
    let state = State::new(1, 1);
    assert_eq!(state.handle_key(KeyCode::Escape, true), Command::Exit);
    assert_eq!(state.handle_key(KeyCode::KeyR, true), Command::ResetCamera);
    assert_eq!(state.handle_key(KeyCode::Space, true), Command::ApplyUpwardForce);
    assert_eq!(state.handle_key(KeyCode::Escape, false), Command::Nothing);
    assert_eq!(state.handle_key(KeyCode::KeyR, false), Command::Nothing);
    assert_eq!(state.handle_key(KeyCode::Space, false), Command::Nothing);
}

#[test]
fn handle_key_ignores_movement_and_unknown_keys() {
    let state = State::new(1, 1);
    for code in [
        KeyCode::KeyW,
        KeyCode::KeyA,
        KeyCode::KeyS,
        KeyCode::KeyD,
        KeyCode::ArrowUp,
        KeyCode::ArrowLeft,
        KeyCode::ArrowDown,
        KeyCode::ArrowRight,
        KeyCode::Other,
    ] {
        assert_eq!(state.handle_key(code, true), Command::Nothing);
        assert_eq!(state.handle_key(code, false), Command::Nothing);
    }
}

#[test]
fn input_reaches_the_camera_controller() {
    let mut state = State::new(640, 480);
    assert!(state.input(&WindowEvent::KeyboardInput { code: KeyCode::KeyD, pressed: true }));
    assert!(state.camera_controller.is_right_pressed);
    assert_eq!((state.width, state.height), (640, 480));
    assert!(!state.input(&WindowEvent::KeyboardInput { code: KeyCode::Space, pressed: true }));
    assert!(!state.input(&WindowEvent::CloseRequested));
    assert!(state.camera_controller.is_right_pressed);
}

#[test]
fn close_request_exits() {
    let mut state = State::new(640, 480);
    let before = state;
    assert_eq!(state.window_event(&WindowEvent::CloseRequested), Command::Exit);
    assert_eq!(state, before);
}

#[test]
fn resized_event_configures_the_clamped_size() {
    let mut state = State::new(640, 480);
    assert_eq!(
        state.window_event(&WindowEvent::Resized { width: 1000, height: 500 }),
        Command::Configure { width: 800, height: 500 }
    );
    assert_eq!((state.width, state.height), (800, 500));
    assert_eq!(
        state.window_event(&WindowEvent::Resized { width: 0, height: 500 }),
        Command::Nothing
    );
    assert_eq!((state.width, state.height), (800, 500));
}

#[test]
fn redraw_draws_only_on_a_configured_surface() {
    let mut state = State::new(640, 480);
    assert_eq!(state.window_event(&WindowEvent::RedrawRequested), Command::Redraw { draw: true });
    state.is_surface_configured = false;
    assert_eq!(state.window_event(&WindowEvent::RedrawRequested), Command::Redraw { draw: false });
    assert!(!state.is_surface_configured);
}

#[test]
fn key_event_steers_the_camera_and_gives_the_keys_command() {
    let mut state = State::new(640, 480);
    state.camera_controller.yaw = 10;
    assert_eq!(
        state.window_event(&WindowEvent::KeyboardInput { code: KeyCode::KeyW, pressed: true }),
        Command::Nothing
    );
    assert!(state.camera_controller.is_forward_pressed);
    assert_eq!(
        state.window_event(&WindowEvent::KeyboardInput { code: KeyCode::KeyR, pressed: true }),
        Command::ResetCamera
    );
    assert_eq!(state.camera_controller.yaw, -90);
    assert!(state.camera_controller.is_forward_pressed);
    assert_eq!(
        state.window_event(&WindowEvent::KeyboardInput { code: KeyCode::Space, pressed: true }),
        Command::ApplyUpwardForce
    );
    assert_eq!(
        state.window_event(&WindowEvent::KeyboardInput { code: KeyCode::Escape, pressed: true }),
        Command::Exit
    );
    assert_eq!(
        state.window_event(&WindowEvent::KeyboardInput { code: KeyCode::Escape, pressed: false }),
        Command::Nothing
    );
}

#[test]
fn other_events_do_nothing() {
    let mut state = State::new(640, 480);
    let before = state;
    assert_eq!(state.window_event(&WindowEvent::Other), Command::Nothing);
    assert_eq!(state, before);
}

#[test]
fn lost_or_outdated_surface_is_configured_with_the_window_size() {
    let mut state = State::new(640, 480);
    assert_eq!(
        state.render_failed(SurfaceError::Lost, 1024, 768),
        Command::Configure { width: 800, height: 768 }
    );
    assert_eq!((state.width, state.height), (800, 768));
    assert_eq!(
        state.render_failed(SurfaceError::Outdated, 320, 200),
        Command::Configure { width: 320, height: 200 }
    );
    assert_eq!((state.width, state.height), (320, 200));
    assert_eq!(state.render_failed(SurfaceError::Lost, 0, 200), Command::Nothing);
    assert_eq!((state.width, state.height), (320, 200));
}

#[test]
fn other_render_failures_are_reported() {
    for error in [SurfaceError::Timeout, SurfaceError::OutOfMemory, SurfaceError::Other] {
        let mut state = State::new(640, 480);
        let before = state;
        assert_eq!(state.render_failed(error, 1024, 768), Command::ReportRenderError);
        assert_eq!(state, before);
    }
}

#[test]
fn surface_format_is_the_first_srgb_one() {
    assert_eq!(choose_surface_format(&[false, true, true]), 1);
    assert_eq!(choose_surface_format(&[true, false]), 0);
    assert_eq!(choose_surface_format(&[false, false, false, true]), 3);
}

#[test]
fn surface_format_falls_back_to_the_first() {
    assert_eq!(choose_surface_format(&[false]), 0);
    assert_eq!(choose_surface_format(&[false, false, false]), 0);
}
