use gl_nt::glenum::{COLOR_BUFFER_BIT, DEPTH_BUFFER_BIT};
use gl_nt::window::{clear_calls, handle_event, initial_viewport, poll_events, KEY_ESCAPE};
use gl_nt::{Action, Event, GlCall, Input};

const KEY_W: i32 = 87;
const KEY_A: i32 = 65;
const LEFT: i32 = 0;

fn key(key: i32, action: Action) -> Event {
    Event::Key { key, action }
}

fn frame(input: &mut Input, size: &mut (i32, i32), events: Vec<Event>) -> (bool, Vec<GlCall>) {
    let r = poll_events(input, &mut size.0, &mut size.1, events);
    (r.close, r.calls)
}

#[test]
fn new_input_is_idle() {
    let input = Input::new();
    assert!(!input.is_key_held(KEY_W));
    assert!(!input.is_key_pressed(KEY_W));
    assert!(!input.is_key_released(KEY_W));
    assert!(!input.is_mouse_held(LEFT));
    assert_eq!(input.mouse_position, (0, 0));
    assert_eq!(f64::from_bits(input.mouse_position.0), 0.0);
}

#[test]
fn press_marks_held_and_pressed() {
    let mut input = Input::new();
    let mut size = (800, 600);
    frame(&mut input, &mut size, vec![key(KEY_W, Action::Press)]);
    assert!(input.is_key_held(KEY_W));
    assert!(input.is_key_pressed(KEY_W));
    assert!(!input.is_key_released(KEY_W));
}

#[test]
fn pressed_lasts_one_frame_held_lasts_until_release() {
    let mut input = Input::new();
    let mut size = (800, 600);
    frame(&mut input, &mut size, vec![key(KEY_W, Action::Press)]);
    frame(&mut input, &mut size, vec![]);
    assert!(input.is_key_held(KEY_W));
    assert!(!input.is_key_pressed(KEY_W));
    frame(&mut input, &mut size, vec![key(KEY_A, Action::Press), key(KEY_W, Action::Repeat)]);
    assert!(input.is_key_held(KEY_W));
    assert!(!input.is_key_pressed(KEY_W));
    frame(&mut input, &mut size, vec![key(KEY_W, Action::Release)]);
    assert!(!input.is_key_held(KEY_W));
    assert!(input.is_key_released(KEY_W));
    assert!(input.is_key_held(KEY_A));
    frame(&mut input, &mut size, vec![]);
    assert!(!input.is_key_released(KEY_W));
}

#[test]
fn press_and_release_in_one_frame_are_both_seen() {
    let mut input = Input::new();
    let mut size = (800, 600);
    frame(&mut input, &mut size, vec![key(KEY_W, Action::Press), key(KEY_W, Action::Release)]);
    assert!(input.is_key_pressed(KEY_W));
    assert!(input.is_key_released(KEY_W));
    assert!(!input.is_key_held(KEY_W));
}

#[test]
fn repeat_holds_without_pressing() {
    let mut input = Input::new();
    let mut size = (800, 600);
    frame(&mut input, &mut size, vec![key(KEY_A, Action::Repeat)]);
    assert!(input.is_key_held(KEY_A));
    assert!(!input.is_key_pressed(KEY_A));
}

#[test]
fn mouse_buttons_follow_press_and_release() {
    let mut input = Input::new();
    let mut size = (800, 600);
    frame(&mut input, &mut size, vec![Event::MouseButton { button: LEFT, action: Action::Press }]);
    assert!(input.is_mouse_held(LEFT));
    assert!(input.is_mouse_pressed(LEFT));
    frame(&mut input, &mut size, vec![Event::MouseButton { button: LEFT, action: Action::Repeat }]);
    assert!(input.is_mouse_held(LEFT));
    assert!(!input.is_mouse_pressed(LEFT));
    frame(&mut input, &mut size, vec![Event::MouseButton { button: LEFT, action: Action::Release }]);
    assert!(!input.is_mouse_held(LEFT));
    assert!(input.is_mouse_released(LEFT));
    assert!(!input.is_key_held(LEFT));
}

#[test]
fn mouse_repeat_changes_nothing() {
    let mut input = Input::new();
    let mut size = (800, 600);
    frame(&mut input, &mut size, vec![Event::MouseButton { button: 2, action: Action::Repeat }]);
    assert!(!input.is_mouse_held(2));
    assert!(!input.is_mouse_pressed(2));
}

#[test]
fn escape_press_closes_the_window() {
    let mut input = Input::new();
    let mut size = (800, 600);
    assert!(frame(&mut input, &mut size, vec![key(KEY_ESCAPE, Action::Press)]).0);
    assert!(input.is_key_pressed(KEY_ESCAPE));
    assert!(!frame(&mut input, &mut size, vec![key(KEY_ESCAPE, Action::Release)]).0);
    assert!(!frame(&mut input, &mut size, vec![key(KEY_ESCAPE, Action::Repeat)]).0);
    assert!(!frame(&mut input, &mut size, vec![key(KEY_W, Action::Press)]).0);
}

#[test]
fn close_request_closes_the_window() {
    let mut input = Input::new();
    let mut size = (800, 600);
    assert!(frame(&mut input, &mut size, vec![Event::Other, Event::Close, Event::Other]).0);
    assert!(!frame(&mut input, &mut size, vec![Event::Other]).0);
}

#[test]
fn resize_updates_size_and_viewport() {
    let mut input = Input::new();
    let mut size = (800, 600);
    let (close, calls) = frame(
        &mut input,
        &mut size,
        vec![
            Event::FramebufferSize { width: 1024, height: 768 },
            Event::FramebufferSize { width: 640, height: 480 },
        ],
    );
    assert!(!close);
    assert_eq!(size, (640, 480));
    assert_eq!(
        calls,
        vec![
            GlCall::Viewport { x: 0, y: 0, width: 1024, height: 768 },
            GlCall::Viewport { x: 0, y: 0, width: 640, height: 480 },
        ]
    );
    let (_, calls) = frame(&mut input, &mut size, vec![key(KEY_W, Action::Press)]);
    assert!(calls.is_empty());
    assert_eq!(size, (640, 480));
}

#[test]
fn cursor_position_is_the_last_reported() {
    let mut input = Input::new();
    let mut size = (800, 600);
    frame(
        &mut input,
        &mut size,
        vec![
            Event::CursorPos { x: 10.5f64.to_bits(), y: 20.0f64.to_bits() },
            Event::CursorPos { x: 11.0f64.to_bits(), y: 3.25f64.to_bits() },
        ],
    );
    assert_eq!(f64::from_bits(input.mouse_position.0), 11.0);
    assert_eq!(f64::from_bits(input.mouse_position.1), 3.25);
    frame(&mut input, &mut size, vec![]);
    assert_eq!(f64::from_bits(input.mouse_position.1), 3.25);
}

#[test]
fn single_event_without_starting_a_frame() {
    let mut input = Input::new();
    let mut w = 1;
    let mut h = 1;
    handle_event(&mut input, &mut w, &mut h, key(KEY_W, Action::Press));
    let r = handle_event(&mut input, &mut w, &mut h, key(KEY_A, Action::Press));
    assert!(!r.close);
    assert!(r.calls.is_empty());
    assert!(input.is_key_pressed(KEY_W) && input.is_key_pressed(KEY_A));
    input.begin_frame();
    assert!(!input.is_key_pressed(KEY_W));
    assert!(input.is_key_held(KEY_W));
}

#[test]
fn window_starts_with_a_full_viewport() {
    let (w, h, calls) = initial_viewport(800, 600);
    assert_eq!((w, h), (800, 600));
    assert_eq!(calls, vec![GlCall::Viewport { x: 0, y: 0, width: 800, height: 600 }]);
}

#[test]
fn clearing_clears_colour_and_depth() {
    assert_eq!(clear_calls(), vec![GlCall::Clear { mask: 0x4100 }]);
    assert_eq!(COLOR_BUFFER_BIT | DEPTH_BUFFER_BIT, 0x4100);
}
