use rust_gpu_test::{
    fullscreen_vertex, App, ClipVertex, Display, EventAction, FrameAction, GpuState, ResumeAction,
    SurfaceStatus, WindowInput, FULLSCREEN_VERTEX_COUNT, WINDOW_HEIGHT, WINDOW_WIDTH,
};

fn running(width: u32, height: u32) -> App {
    let mut app = App::new();
    app.install(GpuState::init(width, height));
    app
}

#[test]
fn uniform_bytes_hold_width_then_height() {
    let bytes = Display::new(800, 600).uniform_bytes();
    let le: Vec<u8> = vec![0x20, 0x03, 0, 0, 0x58, 0x02, 0, 0];
    let be: Vec<u8> = vec![0, 0, 0x03, 0x20, 0, 0, 0x02, 0x58];
    assert!(bytes == le || bytes == be);
    assert_eq!(bytes.len(), 8);
}

#[test]
fn uniform_bytes_match_native_order() {
    let d = Display::new(0x0102_0304, 0xA0B0_C0D0);
    let mut expected = Vec::new();
    expected.extend_from_slice(&0x0102_0304u32.to_ne_bytes());
    expected.extend_from_slice(&0xA0B0_C0D0u32.to_ne_bytes());
    assert_eq!(d.uniform_bytes(), expected);
}

#[test]
fn uniform_bytes_read_back() {
    let d = Display::new(1920, 1080);
    let b = d.uniform_bytes();
    let x = u32::from_ne_bytes([b[0], b[1], b[2], b[3]]);
    let y = u32::from_ne_bytes([b[4], b[5], b[6], b[7]]);
    assert_eq!((x, y), (1920, 1080));
}

#[test]
fn vertex_stage_emits_fullscreen_triangle() {
    assert_eq!(FULLSCREEN_VERTEX_COUNT, 3);
    assert_eq!(fullscreen_vertex(0), ClipVertex { x: -1, y: 1, z: 0, w: 1 });
    assert_eq!(fullscreen_vertex(1), ClipVertex { x: 3, y: 1, z: 0, w: 1 });
    assert_eq!(fullscreen_vertex(2), ClipVertex { x: -1, y: -3, z: 0, w: 1 });
}

fn edge(a: ClipVertex, b: ClipVertex, px: f64, py: f64) -> f64 {
    (b.x - a.x) as f64 * (py - a.y as f64) - (b.y - a.y) as f64 * (px - a.x as f64)
}

#[test]
fn fullscreen_triangle_covers_viewport_corners() {
    let (a, b, c) = (fullscreen_vertex(0), fullscreen_vertex(1), fullscreen_vertex(2));
    for &(px, py) in &[(-1.0, -1.0), (1.0, 1.0), (-1.0, 1.0), (1.0, -1.0), (0.0, 0.0), (0.5, -0.75)] {
        let (e0, e1, e2) = (edge(a, b, px, py), edge(b, c, px, py), edge(c, a, px, py));
        assert!((e0 <= 0.0 && e1 <= 0.0 && e2 <= 0.0) || (e0 >= 0.0 && e1 >= 0.0 && e2 >= 0.0));
    }
}

#[test]
fn init_clamps_surface_but_not_display() {
    let g = GpuState::init(0, 0);
    assert_eq!((g.config_width, g.config_height), (1, 1));
    assert_eq!(g.display, Display::new(0, 0));
    let g = GpuState::init(800, 600);
    assert_eq!((g.config_width, g.config_height), (800, 600));
    assert_eq!(g.display, Display::new(800, 600));
}

#[test]
fn resume_starts_once() {
    let mut app = App::default();
    assert!(app.gpu.is_none());
    assert_eq!(app.resumed(), ResumeAction::Start { width: WINDOW_WIDTH, height: WINDOW_HEIGHT });
    assert_eq!((WINDOW_WIDTH, WINDOW_HEIGHT), (800, 600));
    app.install(GpuState::init(800, 600));
    assert_eq!(app.resumed(), ResumeAction::KeepRunning);
}

#[test]
fn events_before_start_are_ignored() {
    let mut app = App::new();
    for ev in [
        WindowInput::CloseRequested,
        WindowInput::KeyboardInput { escape: true },
        WindowInput::Resized { width: 10, height: 10 },
        WindowInput::RedrawRequested,
        WindowInput::Other,
    ] {
        assert_eq!(app.window_event(ev), EventAction::Ignore);
        assert!(app.gpu.is_none());
    }
}

#[test]
fn escape_and_close_exit() {
    let mut app = running(800, 600);
    assert_eq!(app.window_event(WindowInput::CloseRequested), EventAction::Exit);
    assert_eq!(app.window_event(WindowInput::KeyboardInput { escape: true }), EventAction::Exit);
    assert_eq!(app.window_event(WindowInput::KeyboardInput { escape: false }), EventAction::Ignore);
    assert_eq!(app.gpu, Some(GpuState::init(800, 600)));
}

#[test]
fn resize_updates_surface_and_display() {
    let mut app = running(800, 600);
    assert_eq!(
        app.window_event(WindowInput::Resized { width: 1024, height: 768 }),
        EventAction::Resize { width: 1024, height: 768 }
    );
    let g = app.gpu.unwrap();
    assert_eq!((g.config_width, g.config_height), (1024, 768));
    assert_eq!(g.display, Display::new(1024, 768));
}

#[test]
fn empty_resize_is_ignored() {
    let mut app = running(800, 600);
    assert_eq!(app.window_event(WindowInput::Resized { width: 0, height: 768 }), EventAction::Ignore);
    assert_eq!(app.window_event(WindowInput::Resized { width: 640, height: 0 }), EventAction::Ignore);
    assert_eq!(app.gpu, Some(GpuState::init(800, 600)));
}

#[test]
fn last_resize_wins() {
    let mut app = running(800, 600);
    app.window_event(WindowInput::Resized { width: 300, height: 200 });
    app.window_event(WindowInput::Resized { width: 640, height: 480 });
    let mut direct = running(800, 600);
    direct.window_event(WindowInput::Resized { width: 640, height: 480 });
    assert_eq!(app, direct);
}

#[test]
fn redraw_and_other_keep_state() {
    let mut app = running(320, 240);
    assert_eq!(app.window_event(WindowInput::RedrawRequested), EventAction::Redraw);
    assert_eq!(app.window_event(WindowInput::Other), EventAction::Ignore);
    assert_eq!(app.gpu, Some(GpuState::init(320, 240)));
}

#[test]
fn frame_decisions() {
    let g = GpuState::init(640, 480);
    assert_eq!(g.frame_action(SurfaceStatus::Success), FrameAction::Draw);
    assert_eq!(g.frame_action(SurfaceStatus::Timeout), FrameAction::Retry);
    assert_eq!(g.frame_action(SurfaceStatus::Occluded), FrameAction::Retry);
    assert_eq!(
        g.frame_action(SurfaceStatus::Suboptimal),
        FrameAction::Reconfigure { width: 640, height: 480 }
    );
    assert_eq!(
        g.frame_action(SurfaceStatus::Outdated),
        FrameAction::Reconfigure { width: 640, height: 480 }
    );
    assert_eq!(g.frame_action(SurfaceStatus::Lost), FrameAction::Recreate { width: 640, height: 480 });
}

#[test]
fn reconfigure_after_resize_uses_new_size() {
    let mut app = running(800, 600);
    app.window_event(WindowInput::Resized { width: 1280, height: 720 });
    let g = app.gpu.unwrap();
    assert_eq!(
        g.frame_action(SurfaceStatus::Outdated),
        FrameAction::Reconfigure { width: 1280, height: 720 }
    );
    assert_eq!(g.frame_action(SurfaceStatus::Lost), FrameAction::Recreate { width: 1280, height: 720 });
}
