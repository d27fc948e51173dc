use wgpu_app::events::EventResult;
use wgpu_app::frame::FrameState;
use wgpu_app::math::Vec2u32;

#[test]
fn first_frame_is_requested() {
    let mut s = FrameState::new(Vec2u32::new(640, 480));
    assert!(s.is_redraw_requested());
    assert!(!s.is_redrawing());
    assert_eq!(s.window_size(), Vec2u32::new(640, 480));
    assert!(s.begin_redraw());
    assert!(s.is_redrawing());
    assert!(!s.is_redraw_requested());
    // One frame per request.
    assert!(!s.begin_redraw());
}

#[test]
fn finished_frame_is_reported_once() {
    let mut s = FrameState::new(Vec2u32::new(1, 1));
    assert!(s.begin_redraw());
    assert!(s.take_redraw_finished());
    assert!(!s.is_redrawing());
    assert!(!s.take_redraw_finished());
}

#[test]
fn finished_frame_not_reported_when_another_is_pending() {
    let mut s = FrameState::new(Vec2u32::new(1, 1));
    assert!(s.begin_redraw());
    s.request_redraw();
    assert!(!s.take_redraw_finished());
    assert!(!s.is_redrawing());
    assert!(s.begin_redraw());
}

#[test]
fn answers_of_the_application() {
    let mut s = FrameState::new(Vec2u32::new(1, 1));
    assert!(s.begin_redraw());
    assert!(!s.apply_result(EventResult::Continue));
    assert!(!s.is_redraw_requested());
    assert!(!s.apply_result(EventResult::Redraw));
    assert!(s.is_redraw_requested());
    assert!(s.apply_result(EventResult::Exit));
    assert!(!s.is_redraw_requested());
    assert!(!s.begin_redraw());
}

#[test]
fn resizes_are_reported_once_per_change() {
    let mut s = FrameState::new(Vec2u32::new(100, 100));
    // No resize noted: nothing to report.
    assert_eq!(s.take_resize(Vec2u32::new(200, 100)), None);
    s.note_resize();
    assert_eq!(s.take_resize(Vec2u32::new(200, 100)), Some(Vec2u32::new(200, 100)));
    assert_eq!(s.window_size(), Vec2u32::new(200, 100));
    assert_eq!(s.take_resize(Vec2u32::new(200, 100)), None);
    // A resize back to the same size is not reported.
    s.note_resize();
    assert_eq!(s.take_resize(Vec2u32::new(200, 100)), None);
}

#[test]
fn exit_cancels_pending_frame() {
    let mut s = FrameState::new(Vec2u32::new(8, 8));
    assert!(s.is_redraw_requested());
    assert!(s.apply_result(EventResult::Exit));
    assert!(!s.begin_redraw());
    assert!(!s.is_redrawing());
}

#[test]
fn redraw_request_from_window_system() {
    let mut s = FrameState::new(Vec2u32::new(8, 8));
    assert!(s.begin_redraw());
    assert!(!s.is_redraw_requested());
    s.request_redraw();
    assert!(s.is_redraw_requested());
    assert!(s.begin_redraw());
}
