//! The per-frame input state of a window and the handling of window events.
//!
//! Keys and mouse buttons are identified by their GLFW codes (`GLFW_KEY_*`,
//! `GLFW_MOUSE_BUTTON_*`); cursor coordinates are carried as the bit patterns
//! of the `f64` values GLFW reports.

use std::collections::HashSet;
use vstd::prelude::*;

use crate::command::{
    keeps_framebuffer, keeps_program, lemma_keeps_framebuffer_concat, lemma_keeps_program_concat,
    GlCall,
};
use crate::glenum::{COLOR_BUFFER_BIT, DEPTH_BUFFER_BIT};

verus! {

broadcast use vstd::std_specs::hash::group_hash_axioms;

/// The GLFW code of the Escape key, whose press closes the window.
pub const KEY_ESCAPE: i32 = 256;

/// What happened to a key or a mouse button.
#[derive(Debug, Clone, Copy, PartialEq, Eq, Structural)]
pub enum Action {
    Release,
    Press,
    Repeat,
}

/// A window event, as far as this library reacts to it.
#[derive(Debug, Clone, Copy, PartialEq, Eq, Structural)]
pub enum Event {
    /// A key with GLFW code `key` was pressed, repeated or released.
    Key { key: i32, action: Action },
    /// The mouse button with GLFW code `button` was pressed or released.
    MouseButton { button: i32, action: Action },
    /// The cursor moved to `(x, y)` (bit patterns of the `f64` coordinates).
    CursorPos { x: u64, y: u64 },
    /// The framebuffer was resized.
    FramebufferSize { width: i32, height: i32 },
    /// The user asked to close the window.
    Close,
    /// Any other event; it changes nothing.
    Other,
}

/// What an [`Input`] holds: the keys and buttons that are down, those that
/// went down and those that went up during the current frame, and the last
/// cursor position.
pub struct InputView {
    pub keys_held: Set<i32>,
    pub keys_pressed: Set<i32>,
    pub keys_released: Set<i32>,
    pub mouse_held: Set<i32>,
    pub mouse_pressed: Set<i32>,
    pub mouse_released: Set<i32>,
    pub mouse_position: (u64, u64),
}

/// Keyboard and mouse state, updated from window events.
pub struct Input {
    keys_held: HashSet<i32>,
    keys_pressed: HashSet<i32>,
    keys_released: HashSet<i32>,
    mouse_held: HashSet<i32>,
    mouse_pressed: HashSet<i32>,
    mouse_released: HashSet<i32>,
    /// The last cursor position, as the bit patterns of its `f64` coordinates.
    pub mouse_position: (u64, u64),
}

impl View for Input {
    type V = InputView;

    closed spec fn view(&self) -> InputView {
        InputView {
            keys_held: self.keys_held@,
            keys_pressed: self.keys_pressed@,
            keys_released: self.keys_released@,
            mouse_held: self.mouse_held@,
            mouse_pressed: self.mouse_pressed@,
            mouse_released: self.mouse_released@,
            mouse_position: self.mouse_position,
        }
    }
}

/// The state at the start of a frame: nothing pressed or released yet,
/// everything else kept.
pub open spec fn begin_frame_of(v: InputView) -> InputView {
    InputView {
        keys_pressed: Set::empty(),
        keys_released: Set::empty(),
        mouse_pressed: Set::empty(),
        mouse_released: Set::empty(),
        ..v
    }
}

/// The state after key `key` saw `action`.
pub open spec fn key_event_of(v: InputView, key: i32, action: Action) -> InputView {
    match action {
        Action::Press => InputView {
            keys_held: v.keys_held.insert(key),
            keys_pressed: v.keys_pressed.insert(key),
            ..v
        },
        Action::Repeat => InputView { keys_held: v.keys_held.insert(key), ..v },
        Action::Release => InputView {
            keys_held: v.keys_held.remove(key),
            keys_released: v.keys_released.insert(key),
            ..v
        },
    }
}

/// The state after mouse button `button` saw `action`; a repeat changes
/// nothing.
pub open spec fn mouse_event_of(v: InputView, button: i32, action: Action) -> InputView {
    match action {
        Action::Press => InputView {
            mouse_held: v.mouse_held.insert(button),
            mouse_pressed: v.mouse_pressed.insert(button),
            ..v
        },
        Action::Repeat => v,
        Action::Release => InputView {
            mouse_held: v.mouse_held.remove(button),
            mouse_released: v.mouse_released.insert(button),
            ..v
        },
    }
}

/// The input state and framebuffer size of a window.
pub struct FrameView {
    pub input: InputView,
    pub width: i32,
    pub height: i32,
}

/// The state after one event.
pub open spec fn event_step(f: FrameView, e: Event) -> FrameView {
    match e {
        Event::Key { key, action } => FrameView { input: key_event_of(f.input, key, action), ..f },
        Event::MouseButton { button, action } => FrameView {
            input: mouse_event_of(f.input, button, action),
            ..f
        },
        Event::CursorPos { x, y } => FrameView {
            input: InputView { mouse_position: (x, y), ..f.input },
            ..f
        },
        Event::FramebufferSize { width, height } => FrameView { width, height, ..f },
        _ => f,
    }
}

/// Whether the event asks the window to close: a press of Escape, or a close
/// request.
pub open spec fn event_closes(e: Event) -> bool {
    match e {
        Event::Key { key, action } => key == KEY_ESCAPE && action == Action::Press,
        Event::Close => true,
        _ => false,
    }
}

/// The calls the event asks for: a new viewport when the framebuffer resizes.
pub open spec fn event_calls(e: Event) -> Seq<GlCall> {
    match e {
        Event::FramebufferSize { width, height } => seq![
            GlCall::Viewport { x: 0, y: 0, width, height },
        ],
        _ => Seq::empty(),
    }
}

/// The state after the events `es`, in order.
pub open spec fn apply_events(f: FrameView, es: Seq<Event>) -> FrameView
    decreases es.len(),
{
    if es.len() == 0 {
        f
    } else {
        event_step(apply_events(f, es.drop_last()), es.last())
    }
}

/// Whether any of the events asks the window to close.
pub open spec fn events_close(es: Seq<Event>) -> bool {
    exists|i: int| 0 <= i < es.len() && event_closes(#[trigger] es[i])
}

/// The calls the events ask for, in order.
pub open spec fn events_calls(es: Seq<Event>) -> Seq<GlCall>
    decreases es.len(),
{
    if es.len() == 0 {
        Seq::empty()
    } else {
        events_calls(es.drop_last()) + event_calls(es.last())
    }
}

/// What handling events asks of the host.
pub struct EventResponse {
    /// Whether the window should close.
    pub close: bool,
    /// The calls to run.
    pub calls: Vec<GlCall>,
}

impl Input {
    pub fn new() -> (r: Self)
        ensures
            r@ == (InputView {
                keys_held: Set::empty(),
                keys_pressed: Set::empty(),
                keys_released: Set::empty(),
                mouse_held: Set::empty(),
                mouse_pressed: Set::empty(),
                mouse_released: Set::empty(),
                mouse_position: (0, 0),
            }),
    {
        Input {
            keys_held: HashSet::new(),
            keys_pressed: HashSet::new(),
            keys_released: HashSet::new(),
            mouse_held: HashSet::new(),
            mouse_pressed: HashSet::new(),
            mouse_released: HashSet::new(),
            mouse_position: (0, 0),
        }
    }

    /// Starts a new frame: forgets what was pressed and released.
    pub fn begin_frame(&mut self)
        ensures
            final(self)@ == begin_frame_of(old(self)@),
    {
        self.keys_pressed.clear();
        self.keys_released.clear();
        self.mouse_pressed.clear();
        self.mouse_released.clear();
    }

    /// Records that key `key` saw `action`.
    pub fn key_event(&mut self, key: i32, action: Action)
        ensures
            final(self)@ == key_event_of(old(self)@, key, action),
    {
        match action {
            Action::Press => {
                self.keys_held.insert(key);
                self.keys_pressed.insert(key);
            },
            Action::Repeat => {
                self.keys_held.insert(key);
            },
            Action::Release => {
                self.keys_held.remove(&key);
                self.keys_released.insert(key);
            },
        }
    }

    /// Records that mouse button `button` saw `action`.
    pub fn mouse_event(&mut self, button: i32, action: Action)
        ensures
            final(self)@ == mouse_event_of(old(self)@, button, action),
    {
        match action {
            Action::Press => {
                self.mouse_held.insert(button);
                self.mouse_pressed.insert(button);
            },
            Action::Release => {
                self.mouse_held.remove(&button);
                self.mouse_released.insert(button);
            },
            Action::Repeat => {},
        }
    }

    /// Whether the key is down.
    pub fn is_key_held(&self, key: i32) -> (r: bool)
        ensures
            r == self@.keys_held.contains(key),
    {
        self.keys_held.contains(&key)
    }

    /// Whether the key went down during this frame.
    pub fn is_key_pressed(&self, key: i32) -> (r: bool)
        ensures
            r == self@.keys_pressed.contains(key),
    {
        self.keys_pressed.contains(&key)
    }

    /// Whether the key went up during this frame.
    pub fn is_key_released(&self, key: i32) -> (r: bool)
        ensures
            r == self@.keys_released.contains(key),
    {
        self.keys_released.contains(&key)
    }

    /// Whether the mouse button is down.
    pub fn is_mouse_held(&self, button: i32) -> (r: bool)
        ensures
            r == self@.mouse_held.contains(button),
    {
        self.mouse_held.contains(&button)
    }

    /// Whether the mouse button went down during this frame.
    pub fn is_mouse_pressed(&self, button: i32) -> (r: bool)
        ensures
            r == self@.mouse_pressed.contains(button),
    {
        self.mouse_pressed.contains(&button)
    }

    /// Whether the mouse button went up during this frame.
    pub fn is_mouse_released(&self, button: i32) -> (r: bool)
        ensures
            r == self@.mouse_released.contains(button),
    {
        self.mouse_released.contains(&button)
    }
}

/// Applies one event to the input state and the framebuffer size `width` x
/// `height`, and says what the host has to do.
pub fn handle_event(input: &mut Input, width: &mut i32, height: &mut i32, event: Event) -> (r:
    EventResponse)
    ensures
        (FrameView { input: final(input)@, width: *final(width), height: *final(height) })
            == event_step(
            FrameView { input: old(input)@, width: *old(width), height: *old(height) },
            event,
        ),
        r.close == event_closes(event),
        r.calls@ == event_calls(event),
{
    let mut calls: Vec<GlCall> = Vec::new();
    let mut close = false;
    match event {
        Event::Key { key, action } => {
            input.key_event(key, action);
            if key == KEY_ESCAPE {
                match action {
                    Action::Press => {
                        close = true;
                    },
                    _ => {},
                }
            }
        },
        Event::MouseButton { button, action } => {
            input.mouse_event(button, action);
        },
        Event::CursorPos { x, y } => {
            input.mouse_position = (x, y);
        },
        Event::FramebufferSize { width: w, height: h } => {
            *width = w;
            *height = h;
            calls.push(GlCall::Viewport { x: 0, y: 0, width: w, height: h });
        },
        Event::Close => {
            close = true;
        },
        Event::Other => {},
    }
    EventResponse { close, calls }
}

/// Starts a new frame and applies the events that arrived since the last
/// one, in order, to the input state and the framebuffer size `width` x
/// `height`. The window should close when any of them asks so; the calls
/// that come back set the viewport after each resize.
pub fn poll_events(input: &mut Input, width: &mut i32, height: &mut i32, events: Vec<Event>) -> (r:
    EventResponse)
    ensures
        (FrameView { input: final(input)@, width: *final(width), height: *final(height) })
            == apply_events(
            FrameView { input: begin_frame_of(old(input)@), width: *old(width), height: *old(height) },
            events@,
        ),
        r.close == events_close(events@),
        r.calls@ == events_calls(events@),
{
    input.begin_frame();
    let ghost start = FrameView { input: input@, width: *width, height: *height };
    let mut close = false;
    let mut calls: Vec<GlCall> = Vec::new();
    let n = events.len();
    for i in 0..n
        invariant
            n == events@.len(),
            (FrameView { input: input@, width: *width, height: *height }) == apply_events(
                start,
                events@.take(i as int),
            ),
            close == events_close(events@.take(i as int)),
            calls@ == events_calls(events@.take(i as int)),
    {
        let e = events[i];
        let resp = handle_event(input, width, height, e);
        let ghost prefix = events@.take(i as int);
        let ghost next = events@.take(i + 1);
        assert(next.drop_last() =~= prefix);
        assert(next.last() == e);
        if resp.close {
            close = true;
        }
        let mut more = resp.calls;
        calls.append(&mut more);
        assert(events_close(next) == (events_close(prefix) || event_closes(e))) by {
            if event_closes(e) {
                assert(next[i as int] == e);
            }
            if events_close(prefix) {
                let j = choose|j: int| 0 <= j < prefix.len() && event_closes(#[trigger] prefix[j]);
                assert(next[j] == prefix[j]);
            }
            if events_close(next) {
                let j = choose|j: int| 0 <= j < next.len() && event_closes(#[trigger] next[j]);
                if j < i {
                    assert(prefix[j] == next[j]);
                }
            }
        }
    }
    assert(events@.take(n as int) =~= events@);
    EventResponse { close, calls }
}

/// The framebuffer size of a window opened at `width` x `height` pixels, and
/// the call that sets the viewport to it.
pub fn initial_viewport(width: u32, height: u32) -> (r: (i32, i32, Vec<GlCall>))
    ensures
        r.0 == width as i32,
        r.1 == height as i32,
        r.2@ == seq![GlCall::Viewport { x: 0, y: 0, width: width as i32, height: height as i32 }],
{
    let w = width as i32;
    let h = height as i32;
    let mut calls: Vec<GlCall> = Vec::new();
    calls.push(GlCall::Viewport { x: 0, y: 0, width: w, height: h });
    (w, h, calls)
}

/// The call that clears the colour and depth buffers.
pub fn clear_calls() -> (r: Vec<GlCall>)
    ensures
        r@ == seq![GlCall::Clear { mask: COLOR_BUFFER_BIT | DEPTH_BUFFER_BIT }],
{
    let mut calls: Vec<GlCall> = Vec::new();
    calls.push(GlCall::Clear { mask: COLOR_BUFFER_BIT | DEPTH_BUFFER_BIT });
    calls
}

/// Starting a frame forgets every press and release and keeps what is held
/// and where the cursor is.
pub proof fn lemma_frame_start(v: InputView)
    ensures
        begin_frame_of(v).keys_held == v.keys_held,
        begin_frame_of(v).mouse_held == v.mouse_held,
        begin_frame_of(v).mouse_position == v.mouse_position,
        begin_frame_of(v).keys_pressed.is_empty(),
        begin_frame_of(v).keys_released.is_empty(),
        begin_frame_of(v).mouse_pressed.is_empty(),
        begin_frame_of(v).mouse_released.is_empty(),
{
}

/// An event of one key leaves the state of every other key as it was, and
/// the mouse state too.
pub proof fn lemma_other_keys_untouched(v: InputView, key: i32, action: Action, other: i32)
    requires
        other != key,
    ensures
        key_event_of(v, key, action).keys_held.contains(other) == v.keys_held.contains(other),
        key_event_of(v, key, action).keys_pressed.contains(other) == v.keys_pressed.contains(other),
        key_event_of(v, key, action).keys_released.contains(other) == v.keys_released.contains(
            other,
        ),
        key_event_of(v, key, action).mouse_held == v.mouse_held,
        key_event_of(v, key, action).mouse_pressed == v.mouse_pressed,
        key_event_of(v, key, action).mouse_released == v.mouse_released,
{
}

/// A key that is held stays held, whatever the events, until an event
/// releases it.
pub proof fn lemma_held_until_released(f: FrameView, es: Seq<Event>, key: i32)
    requires
        f.input.keys_held.contains(key),
        forall|i: int|
            0 <= i < es.len() ==> #[trigger] es[i] != (Event::Key { key, action: Action::Release }),
    ensures
        apply_events(f, es).input.keys_held.contains(key),
    decreases es.len(),
{
    if es.len() > 0 {
        let prefix = es.drop_last();
        assert forall|i: int| 0 <= i < prefix.len() implies #[trigger] prefix[i] != (Event::Key {
            key,
            action: Action::Release,
        }) by {
            assert(prefix[i] == es[i]);
        }
        lemma_held_until_released(f, prefix, key);
        assert(es[es.len() - 1] == es.last());
    }
}

/// Once a key has been pressed during a frame it counts as pressed for the
/// rest of the frame, and likewise for a release; the same holds for mouse
/// buttons.
pub proof fn lemma_edges_last_the_frame(f: FrameView, es: Seq<Event>, i: int)
    requires
        0 <= i < es.len(),
    ensures
        es[i] matches Event::Key { key, action: Action::Press }
            ==> apply_events(f, es).input.keys_pressed.contains(key),
        es[i] matches Event::Key { key, action: Action::Release }
            ==> apply_events(f, es).input.keys_released.contains(key),
        es[i] matches Event::MouseButton { button, action: Action::Press }
            ==> apply_events(f, es).input.mouse_pressed.contains(button),
        es[i] matches Event::MouseButton { button, action: Action::Release }
            ==> apply_events(f, es).input.mouse_released.contains(button),
    decreases es.len(),
{
    let prefix = es.drop_last();
    if i < es.len() - 1 {
        lemma_edges_last_the_frame(f, prefix, i);
        assert(prefix[i] == es[i]);
    } else {
        assert(prefix =~= es.take(i));
        assert(es.last() == es[i]);
    }
}

/// Whether no event of `es` from position `from` on resizes the framebuffer.
pub open spec fn no_resize_after(es: Seq<Event>, from: int) -> bool {
    forall|j: int| from <= j < es.len() ==> !(#[trigger] es[j] is FramebufferSize)
}

/// The framebuffer size after a run of events is the size of the last
/// resize among them, or the size before when none resizes.
pub proof fn lemma_last_resize_wins(f: FrameView, es: Seq<Event>)
    ensures
        no_resize_after(es, 0) ==> apply_events(f, es).width == f.width && apply_events(
            f,
            es,
        ).height == f.height,
        forall|i: int|
            0 <= i < es.len() && (#[trigger] es[i]) is FramebufferSize && no_resize_after(es, i + 1)
                ==> apply_events(f, es).width == es[i]->FramebufferSize_width
                && apply_events(f, es).height == es[i]->FramebufferSize_height,
    decreases es.len(),
{
    if es.len() > 0 {
        let prefix = es.drop_last();
        lemma_last_resize_wins(f, prefix);
        let last = es.last();
        assert(last == es[es.len() - 1]);
        if no_resize_after(es, 0) {
            assert forall|j: int| 0 <= j < prefix.len() implies !(#[trigger] prefix[j] is FramebufferSize) by {
                assert(prefix[j] == es[j]);
            }
        }
        assert forall|i: int|
            0 <= i < es.len() && (#[trigger] es[i]) is FramebufferSize && no_resize_after(es, i + 1)
            implies apply_events(f, es).width == es[i]->FramebufferSize_width
            && apply_events(f, es).height == es[i]->FramebufferSize_height by {
            if i < es.len() - 1 {
                assert(prefix[i] == es[i]);
                assert(!(es[es.len() - 1] is FramebufferSize));
                assert forall|j: int| i + 1 <= j < prefix.len() implies !(#[trigger] prefix[j] is FramebufferSize) by {
                    assert(prefix[j] == es[j]);
                }
            }
        }
    }
}

/// The cursor position after a run of events is that of the last cursor
/// move among them.
pub proof fn lemma_last_cursor_position_wins(f: FrameView, es: Seq<Event>, i: int)
    requires
        0 <= i < es.len(),
        es[i] is CursorPos,
        forall|j: int| i < j < es.len() ==> !(#[trigger] es[j] is CursorPos),
    ensures
        apply_events(f, es).input.mouse_position == (es[i]->CursorPos_x, es[i]->CursorPos_y),
    decreases es.len(),
{
    let prefix = es.drop_last();
    assert(es.last() == es[es.len() - 1]);
    if i < es.len() - 1 {
        assert(prefix[i] == es[i]);
        assert forall|j: int| i < j < prefix.len() implies !(#[trigger] prefix[j] is CursorPos) by {
            assert(prefix[j] == es[j]);
        }
        lemma_last_cursor_position_wins(f, prefix, i);
    }
}

/// Clearing and the viewport changes that events ask for switch no program
/// and bind no framebuffer.
pub proof fn lemma_window_calls_keep_program(es: Seq<Event>, width: u32, height: u32)
    ensures
        keeps_program(events_calls(es)),
        keeps_framebuffer(events_calls(es)),
        keeps_framebuffer(seq![GlCall::Clear { mask: COLOR_BUFFER_BIT | DEPTH_BUFFER_BIT }]),
        keeps_program(seq![GlCall::Clear { mask: COLOR_BUFFER_BIT | DEPTH_BUFFER_BIT }]),
        keeps_program(
            seq![GlCall::Viewport { x: 0, y: 0, width: width as i32, height: height as i32 }],
        ),
    decreases es.len(),
{
    reveal_with_fuel(keeps_program, 2);
    reveal_with_fuel(keeps_framebuffer, 2);
    if es.len() > 0 {
        lemma_window_calls_keep_program(es.drop_last(), width, height);
        lemma_keeps_program_concat(events_calls(es.drop_last()), event_calls(es.last()));
        lemma_keeps_framebuffer_concat(events_calls(es.drop_last()), event_calls(es.last()));
    }
}

/// An event of one mouse button leaves the state of every other button as
/// it was, and the keys too; a press makes the button held and pressed, a
/// release makes it not held and released.
pub proof fn lemma_other_buttons_untouched(v: InputView, button: i32, action: Action, other: i32)
    ensures
        other != button ==> mouse_event_of(v, button, action).mouse_held.contains(other)
            == v.mouse_held.contains(other),
        other != button ==> mouse_event_of(v, button, action).mouse_pressed.contains(other)
            == v.mouse_pressed.contains(other),
        other != button ==> mouse_event_of(v, button, action).mouse_released.contains(other)
            == v.mouse_released.contains(other),
        mouse_event_of(v, button, action).keys_held == v.keys_held,
        mouse_event_of(v, button, action).keys_pressed == v.keys_pressed,
        mouse_event_of(v, button, action).keys_released == v.keys_released,
        action == Action::Press ==> mouse_event_of(v, button, action).mouse_held.contains(button)
            && mouse_event_of(v, button, action).mouse_pressed.contains(button),
        action == Action::Release ==> !mouse_event_of(v, button, action).mouse_held.contains(button)
            && mouse_event_of(v, button, action).mouse_released.contains(button),
{
}

/// A mouse button that is held stays held, whatever the events, until an
/// event releases that same button.
pub proof fn lemma_button_held_until_released(f: FrameView, es: Seq<Event>, button: i32)
    requires
        f.input.mouse_held.contains(button),
        forall|i: int|
            0 <= i < es.len() ==> #[trigger] es[i] != (Event::MouseButton {
                button,
                action: Action::Release,
            }),
    ensures
        apply_events(f, es).input.mouse_held.contains(button),
    decreases es.len(),
{
    if es.len() > 0 {
        let prefix = es.drop_last();
        assert forall|i: int| 0 <= i < prefix.len() implies #[trigger] prefix[i] != (
        Event::MouseButton { button, action: Action::Release }) by {
            assert(prefix[i] == es[i]);
        }
        lemma_button_held_until_released(f, prefix, button);
        assert(es[es.len() - 1] == es.last());
    }
}

/// Only a press of Escape (GLFW code 256) or a close request closes the
/// window: every other key, with any action, and every other event leaves it
/// open; and a run of events closes it exactly when one of them is such an
/// event.
pub proof fn lemma_only_escape_press_or_close_request_closes(key: i32, action: Action, es: Seq<Event>)
    ensures
        event_closes(Event::Key { key, action }) <==> (key == 256 && action == Action::Press),
        event_closes(Event::Close),
        forall|button: i32, a: Action| #[trigger] event_closes(Event::MouseButton { button, action: a }) == false,
        forall|x: u64, y: u64| #[trigger] event_closes(Event::CursorPos { x, y }) == false,
        forall|w: i32, h: i32| #[trigger] event_closes(Event::FramebufferSize { width: w, height: h }) == false,
        !event_closes(Event::Other),
        events_close(es) <==> exists|i: int|
            0 <= i < es.len() && (es[i] == Event::Close || #[trigger] es[i] == (Event::Key {
                key: 256,
                action: Action::Press,
            })),
{
    if events_close(es) {
        let i = choose|i: int| 0 <= i < es.len() && event_closes(#[trigger] es[i]);
        assert(es[i] == Event::Close || es[i] == (Event::Key { key: 256, action: Action::Press }));
    }
    if exists|i: int|
        0 <= i < es.len() && (es[i] == Event::Close || #[trigger] es[i] == (Event::Key {
            key: 256,
            action: Action::Press,
        })) {
        let i = choose|i: int|
            0 <= i < es.len() && (es[i] == Event::Close || #[trigger] es[i] == (Event::Key {
                key: 256,
                action: Action::Press,
            }));
        assert(event_closes(es[i]));
    }
}

/// A framebuffer resize sets the viewport to exactly the new framebuffer
/// size, origin at 0; no other event asks for a call.
pub proof fn lemma_viewport_follows_the_size(f: FrameView, e: Event)
    ensures
        e is FramebufferSize ==> event_calls(e) == seq![
            GlCall::Viewport {
                x: 0,
                y: 0,
                width: event_step(f, e).width,
                height: event_step(f, e).height,
            },
        ],
        e is FramebufferSize ==> event_step(f, e).width == e->FramebufferSize_width
            && event_step(f, e).height == e->FramebufferSize_height,
        !(e is FramebufferSize) ==> event_calls(e).len() == 0 && event_step(f, e).width == f.width
            && event_step(f, e).height == f.height,
{
}

} // verus!
