use tui_bridge::events::AppEvent;
use tui_bridge::render::{RenderError, RenderLoop};
use tui_bridge::viewport::Viewport;

fn contains(haystack: &[u8], needle: &[u8]) -> bool {
    haystack.windows(needle.len()).any(|w| w == needle)
}

#[test]
fn render_before_any_resize_rejected() {
    let mut rl = RenderLoop::new();
    let r = rl.step(&AppEvent::Render);
    assert!(matches!(r, Err(RenderError::EmptyViewport)));
    assert_eq!(rl.current_viewport(), Viewport { x: 0, y: 0, width: 0, height: 0 });
}

#[test]
fn resize_overwrites_viewport() {
    let mut rl = RenderLoop::new();
    rl.step(&AppEvent::Resize(80, 24)).unwrap();
    assert_eq!(rl.current_viewport(), Viewport { x: 0, y: 0, width: 80, height: 24 });
    rl.step(&AppEvent::Resize(40, 10)).unwrap();
    // The last resize's values, not an accumulation of earlier ones.
    assert_eq!(rl.current_viewport(), Viewport { x: 0, y: 0, width: 40, height: 10 });
}

#[test]
fn zero_resize_rejected_and_viewport_kept() {
    let mut rl = RenderLoop::new();
    rl.step(&AppEvent::Resize(80, 24)).unwrap();
    let r = rl.step(&AppEvent::Resize(0, 10));
    assert!(matches!(r, Err(RenderError::ZeroResize)));
    assert_eq!(rl.current_viewport(), Viewport { x: 0, y: 0, width: 80, height: 24 });
}

#[test]
fn rendering_is_deterministic() {
    let mut a = RenderLoop::new();
    let first = a.step(&AppEvent::Resize(80, 24)).unwrap();
    let second = a.step(&AppEvent::Render).unwrap();
    assert_eq!(first, second);

    let mut b = RenderLoop::new();
    let other = b.step(&AppEvent::Resize(80, 24)).unwrap();
    assert_eq!(first, other);
}

#[test]
fn resize_then_render_uses_new_size_only() {
    let mut rl = RenderLoop::new();
    rl.step(&AppEvent::Resize(80, 24)).unwrap();
    let frame = rl.step(&AppEvent::Resize(40, 10)).unwrap();

    // The frame equals a fresh render at exactly (40, 10) ...
    let mut fresh = RenderLoop::new();
    let expected = fresh.step(&AppEvent::Resize(40, 10)).unwrap();
    assert_eq!(frame, expected);

    // ... and differs from a frame at the prior size.
    let mut old_size = RenderLoop::new();
    let old_frame = old_size.step(&AppEvent::Resize(80, 24)).unwrap();
    assert_ne!(frame, old_frame);
}

#[test]
fn frame_holds_rendered_content() {
    let mut rl = RenderLoop::new();
    let frame = rl.step(&AppEvent::Resize(40, 10)).unwrap();
    // The words are rendered as separate runs of cells, with a cursor move
    // over the unchanged blank cell between them.
    assert!(contains(&frame, b"hello"));
    assert!(contains(&frame, b"world"));
}

#[test]
fn reserved_events_reported_unsupported() {
    let mut rl = RenderLoop::new();
    rl.step(&AppEvent::Resize(80, 24)).unwrap();
    let input = rl.step(&AppEvent::Input(vec![27, 91, 65]));
    assert!(matches!(input, Err(RenderError::UnsupportedEvent)));
    let shutdown = rl.step(&AppEvent::Shutdown);
    assert!(matches!(shutdown, Err(RenderError::UnsupportedEvent)));
    // The viewport is untouched by unsupported events.
    assert_eq!(rl.current_viewport(), Viewport { x: 0, y: 0, width: 80, height: 24 });
}
