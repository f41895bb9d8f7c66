use vstd::prelude::*;
use crate::controller::Command;
use crate::geometry::{decode_point, encloses, high_word, low_word, max_int, min_int, point_from_words, Point, SelectionRect};
use crate::selection::{invalidated_region, next_tracker, redraw_for, PointerEvent, SelectionTracker};
use crate::window::WindowType;

verus! {

pub const WM_DESTROY: u32 = 0x0002;
pub const WM_PAINT: u32 = 0x000F;
pub const WM_ERASEBKGND: u32 = 0x0014;
pub const WM_KEYDOWN: u32 = 0x0100;
pub const WM_MOUSEMOVE: u32 = 0x0200;
pub const WM_LBUTTONDOWN: u32 = 0x0201;
pub const WM_LBUTTONUP: u32 = 0x0202;
/// Bit of a pointer message's first parameter set while the left button is down.
pub const MK_LBUTTON: usize = 0x0001;

pub const KEY_ESCAPE: usize = 0x1B;
pub const KEY_R: usize = 0x52;
pub const KEY_S: usize = 0x53;

/// A window message, read.
#[derive(Clone, Copy, Debug, PartialEq, Eq, Structural)]
pub enum WindowEvent {
    Pointer(PointerEvent),
    Paint,
    EraseBackground,
    KeyDown(usize),
    Destroy,
    /// Any message this program leaves to the system's default handling.
    Unhandled,
}

/// What a window handler does in answer to an event.
#[derive(Clone, Copy, Debug, PartialEq, Eq, Structural)]
pub enum Action {
    /// End the message loop.
    Quit,
    /// Ask the system to repaint this part of the window.
    Invalidate(SelectionRect),
    /// Send a command to the window in a role.
    Dispatch { role: WindowType, command: Command },
    /// Hand the message to the system's default handling.
    PassOn,
}

/// The pointer position packed into a message's second parameter.
pub open spec fn packed_point(lparam: isize) -> Point {
    Point { x: low_word(lparam as i32) as i32, y: high_word(lparam as i32) as i32 }
}

/// How a message reads.
pub open spec fn event_of(message: u32, wparam: usize, lparam: isize) -> WindowEvent {
    if message == WM_LBUTTONDOWN {
        WindowEvent::Pointer(PointerEvent::Down(packed_point(lparam)))
    } else if message == WM_MOUSEMOVE {
        WindowEvent::Pointer(
            PointerEvent::Move { at: packed_point(lparam), button_held: wparam & MK_LBUTTON != 0 },
        )
    } else if message == WM_LBUTTONUP {
        WindowEvent::Pointer(PointerEvent::Up(packed_point(lparam)))
    } else if message == WM_PAINT {
        WindowEvent::Paint
    } else if message == WM_ERASEBKGND {
        WindowEvent::EraseBackground
    } else if message == WM_KEYDOWN {
        WindowEvent::KeyDown(wparam)
    } else if message == WM_DESTROY {
        WindowEvent::Destroy
    } else {
        WindowEvent::Unhandled
    }
}

/// Reads a window message from its code and two parameters.
pub fn decode_message(message: u32, wparam: usize, lparam: isize) -> (r: WindowEvent)
    ensures
        r == event_of(message, wparam, lparam),
{
    if message == WM_LBUTTONDOWN || message == WM_MOUSEMOVE || message == WM_LBUTTONUP {
        let at = point_from_words(decode_point(lparam as i32));
        if message == WM_LBUTTONDOWN {
            WindowEvent::Pointer(PointerEvent::Down(at))
        } else if message == WM_MOUSEMOVE {
            WindowEvent::Pointer(PointerEvent::Move { at, button_held: wparam & MK_LBUTTON != 0 })
        } else {
            WindowEvent::Pointer(PointerEvent::Up(at))
        }
    } else if message == WM_PAINT {
        WindowEvent::Paint
    } else if message == WM_ERASEBKGND {
        WindowEvent::EraseBackground
    } else if message == WM_KEYDOWN {
        WindowEvent::KeyDown(wparam)
    } else if message == WM_DESTROY {
        WindowEvent::Destroy
    } else {
        WindowEvent::Unhandled
    }
}

/// Keys of the overlay: Escape quits; S has the capture window capture again;
/// R hides the overlay, then reloads the capture window.
pub open spec fn overlay_key_spec(key: usize) -> Seq<Action> {
    if key == KEY_ESCAPE {
        seq![Action::Quit]
    } else if key == KEY_S {
        seq![Action::Dispatch { role: WindowType::Opaque, command: Command::TriggerScreenshot }]
    } else if key == KEY_R {
        seq![
            Action::Dispatch { role: WindowType::Transparent, command: Command::Hide },
            Action::Dispatch { role: WindowType::Opaque, command: Command::Reload },
        ]
    } else {
        seq![]
    }
}

/// The command that paints the selection `shown`, if there is one.
pub open spec fn paint_spec(shown: Option<SelectionRect>) -> Seq<Action> {
    match shown {
        Some(rect) => seq![
            Action::Dispatch {
                role: WindowType::Transparent,
                command: Command::DrawRectangle {
                    start: Point { x: rect.left, y: rect.top },
                    end: Point { x: rect.right, y: rect.bottom },
                },
            },
        ],
        None => seq![],
    }
}

/// What the overlay does in answer to `event`.
pub open spec fn overlay_actions(t: SelectionTracker, event: WindowEvent) -> Seq<Action> {
    match event {
        WindowEvent::Pointer(p) => match redraw_for(t, p) {
            Some(redraw) => seq![Action::Invalidate(redraw.invalidated)],
            None => seq![],
        },
        WindowEvent::Paint => paint_spec(t.shown),
        WindowEvent::KeyDown(key) => overlay_key_spec(key),
        WindowEvent::Destroy => seq![Action::Quit],
        _ => seq![Action::PassOn],
    }
}

/// What the capture window does in answer to `event`. Erasing its background
/// is when it captures and paints the desktop; only after that is the overlay
/// shown.
pub open spec fn capture_window_actions(event: WindowEvent) -> Seq<Action> {
    match event {
        WindowEvent::KeyDown(key) => if key == KEY_ESCAPE {
            seq![Action::Quit]
        } else {
            seq![]
        },
        WindowEvent::Destroy => seq![Action::Quit],
        WindowEvent::EraseBackground => seq![
            Action::Dispatch { role: WindowType::Opaque, command: Command::AutoScreenshot },
            Action::Dispatch { role: WindowType::Transparent, command: Command::Show },
        ],
        _ => seq![Action::PassOn],
    }
}

/// The actions for a key pressed over the overlay.
pub fn overlay_key_actions(key: usize) -> (r: Vec<Action>)
    ensures
        r@ == overlay_key_spec(key),
{
    if key == KEY_ESCAPE {
        vec![Action::Quit]
    } else if key == KEY_S {
        vec![Action::Dispatch { role: WindowType::Opaque, command: Command::TriggerScreenshot }]
    } else if key == KEY_R {
        vec![
            Action::Dispatch { role: WindowType::Transparent, command: Command::Hide },
            Action::Dispatch { role: WindowType::Opaque, command: Command::Reload },
        ]
    } else {
        vec![]
    }
}

/// The overlay's answer to a window event: pointer events drive the
/// selection and ask for a repaint of the region it touched, and a paint
/// sends the current selection to the overlay's drawing.
pub fn overlay_event(tracker: &mut SelectionTracker, event: WindowEvent) -> (r: Vec<Action>)
    ensures
        *final(tracker) == (match event {
            WindowEvent::Pointer(p) => next_tracker(*old(tracker), p),
            _ => *old(tracker),
        }),
        r@ == overlay_actions(*old(tracker), event),
{
    match event {
        WindowEvent::Pointer(p) => match tracker.handle(p) {
            Some(redraw) => vec![Action::Invalidate(redraw.invalidated)],
            None => vec![],
        },
        WindowEvent::Paint => match tracker.shown {
            Some(rect) => vec![
                Action::Dispatch {
                    role: WindowType::Transparent,
                    command: Command::DrawRectangle { start: rect.top_left(), end: rect.bottom_right() },
                },
            ],
            None => vec![],
        },
        WindowEvent::KeyDown(key) => overlay_key_actions(key),
        WindowEvent::Destroy => vec![Action::Quit],
        _ => vec![Action::PassOn],
    }
}

/// The capture window's answer to a window event.
pub fn capture_window_event(event: WindowEvent) -> (r: Vec<Action>)
    ensures
        r@ == capture_window_actions(event),
{
    match event {
        WindowEvent::KeyDown(key) => if key == KEY_ESCAPE {
            vec![Action::Quit]
        } else {
            vec![]
        },
        WindowEvent::Destroy => vec![Action::Quit],
        WindowEvent::EraseBackground => vec![
            Action::Dispatch { role: WindowType::Opaque, command: Command::AutoScreenshot },
            Action::Dispatch { role: WindowType::Transparent, command: Command::Show },
        ],
        _ => vec![Action::PassOn],
    }
}

/// On the overlay, in whatever state, pressing at `p1` and moving to `p2`
/// with the button held asks for a repaint of a region holding the rectangle
/// with edges min/max of the two corners (exactly that rectangle where none
/// was shown before), and the paint that follows draws that rectangle from
/// its top-left to its bottom-right corner, whichever way the drag went.
pub proof fn lemma_overlay_drag_paints_span(t: SelectionTracker, p1: Point, p2: Point)
    ensures
        ({
            let pressed = next_tracker(t, PointerEvent::Down(p1));
            let moved = PointerEvent::Move { at: p2, button_held: true };
            let expected = SelectionRect {
                left: min_int(p1.x as int, p2.x as int) as i32,
                top: min_int(p1.y as int, p2.y as int) as i32,
                right: max_int(p1.x as int, p2.x as int) as i32,
                bottom: max_int(p1.y as int, p2.y as int) as i32,
            };
            let region = invalidated_region(t.shown, expected);
            &&& overlay_actions(pressed, WindowEvent::Pointer(moved)) == seq![Action::Invalidate(region)]
            &&& encloses(region, expected)
            &&& t.shown is None ==> region == expected
            &&& overlay_actions(next_tracker(pressed, moved), WindowEvent::Paint) == seq![
                Action::Dispatch {
                    role: WindowType::Transparent,
                    command: Command::DrawRectangle {
                        start: Point { x: expected.left, y: expected.top },
                        end: Point { x: expected.right, y: expected.bottom },
                    },
                },
            ]
        }),
{
}

} // verus!
