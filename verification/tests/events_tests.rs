use wgpu_app::events::{cursor_moved, cursor_or_origin, resized_window_size, ElementState, EventResult, MouseButtons};
use wgpu_app::event;
use wgpu_app::math::{Vec2i32, Vec2u32};

#[test]
fn resize_keeps_sides_positive() {
    assert_eq!(resized_window_size(800, 600), Vec2u32::new(800, 600));
    assert_eq!(resized_window_size(0, 600), Vec2u32::new(1, 600));
    assert_eq!(resized_window_size(0, 0), Vec2u32::new(1, 1));
}

#[test]
fn first_cursor_move_has_no_delta() {
    let mut pos: Option<Vec2u32> = None;
    let delta = cursor_moved(&mut pos, Vec2u32::new(100, 50));
    assert_eq!(delta, Vec2i32::new(0, 0));
    assert_eq!(pos, Some(Vec2u32::new(100, 50)));
}

#[test]
fn later_cursor_moves_report_delta() {
    let mut pos = Some(Vec2u32::new(100, 50));
    let delta = cursor_moved(&mut pos, Vec2u32::new(90, 70));
    assert_eq!(delta, Vec2i32::new(-10, 20));
    assert_eq!(pos, Some(Vec2u32::new(90, 70)));
    let delta = cursor_moved(&mut pos, Vec2u32::new(90, 70));
    assert_eq!(delta, Vec2i32::new(0, 0));
}

#[test]
fn cursor_position_defaults_to_origin() {
    assert_eq!(cursor_or_origin(&None), Vec2u32::new(0, 0));
    assert_eq!(cursor_or_origin(&Some(Vec2u32::new(4, 5))), Vec2u32::new(4, 5));
}

#[test]
fn origin_based_cursor_tracking_reinterprets_coordinates() {
    let mut pos = Vec2u32::new(0, 0);
    let delta = event::cursor_moved(&mut pos, Vec2u32::new(30, 40));
    assert_eq!(delta, Vec2i32::new(30, 40));
    assert_eq!(pos, Vec2u32::new(30, 40));
    let delta = event::cursor_moved(&mut pos, Vec2u32::new(10, u32::MAX));
    assert_eq!(delta, Vec2i32::new(-20, -41));
}

#[test]
fn event_types_compare() {
    assert_eq!(MouseButtons::Other(3), MouseButtons::Other(3));
    assert_ne!(MouseButtons::Left, MouseButtons::Right);
    assert_ne!(ElementState::Pressed, ElementState::Released);
    assert_eq!(event::EventResult::Redraw, EventResult::Redraw);
}

#[test]
fn successive_cursor_moves_add_up() {
    let mut pos: Option<Vec2u32> = Some(Vec2u32::new(10, 10));
    let d1 = cursor_moved(&mut pos, Vec2u32::new(25, 3));
    let d2 = cursor_moved(&mut pos, Vec2u32::new(7, 40));
    assert_eq!(d1 + d2, Vec2i32::new(7 - 10, 40 - 10));
}

#[test]
fn cursor_at_rest_reports_no_move() {
    let mut pos: Option<Vec2u32> = Some(Vec2u32::new(i32::MAX as u32, 0));
    assert_eq!(cursor_moved(&mut pos, Vec2u32::new(i32::MAX as u32, 0)), Vec2i32::new(0, 0));
}
