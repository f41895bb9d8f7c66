use vstd::prelude::*;
use crate::geometry::{bounding, max_int, min_int, normalize, spanned, union, Point, SelectionRect};

verus! {

#[derive(Clone, Copy, Debug, PartialEq, Eq, Structural)]
pub enum DragState {
    Idle,
    Dragging { start: Point },
}

/// Pointer input in window-client coordinates.
#[derive(Clone, Copy, Debug, PartialEq, Eq, Structural)]
pub enum PointerEvent {
    Down(Point),
    Move { at: Point, button_held: bool },
    Up(Point),
}

/// A request to draw `selection`, repainting only `invalidated`, which holds
/// both the rectangle drawn before and the new one.
#[derive(Clone, Copy, Debug, PartialEq, Eq, Structural)]
pub struct Redraw {
    pub selection: SelectionRect,
    pub invalidated: SelectionRect,
}

/// Drag state, and the selection drawn last, which stays on screen after the
/// drag ends.
#[derive(Clone, Copy, Debug, PartialEq, Eq, Structural)]
pub struct SelectionTracker {
    pub state: DragState,
    pub shown: Option<SelectionRect>,
}

/// The region to repaint when `selection` replaces what `shown` holds.
pub open spec fn invalidated_region(shown: Option<SelectionRect>, selection: SelectionRect) -> SelectionRect {
    match shown {
        Some(previous) => bounding(previous, selection),
        None => selection,
    }
}

/// The tracker after `event`.
pub open spec fn next_tracker(t: SelectionTracker, event: PointerEvent) -> SelectionTracker {
    match event {
        PointerEvent::Down(p) => SelectionTracker { state: DragState::Dragging { start: p }, shown: t.shown },
        PointerEvent::Move { at, button_held } => match t.state {
            DragState::Dragging { start } if button_held => SelectionTracker {
                state: t.state,
                shown: Some(spanned(start, at)),
            },
            _ => t,
        },
        PointerEvent::Up(_) => SelectionTracker { state: DragState::Idle, shown: t.shown },
    }
}

/// The redraw that `event` asks for: one for each move while the button is
/// held during a drag, none otherwise.
pub open spec fn redraw_for(t: SelectionTracker, event: PointerEvent) -> Option<Redraw> {
    match event {
        PointerEvent::Move { at, button_held } => match t.state {
            DragState::Dragging { start } if button_held => Some(
                Redraw {
                    selection: spanned(start, at),
                    invalidated: invalidated_region(t.shown, spanned(start, at)),
                },
            ),
            _ => None,
        },
        _ => None,
    }
}

impl SelectionTracker {
    pub fn new() -> (r: SelectionTracker)
        ensures
            r.state == DragState::Idle,
            r.shown.is_none(),
    {
        SelectionTracker { state: DragState::Idle, shown: None }
    }

    /// The pointer went down at `p`: a drag starts there.
    pub fn pointer_down(&mut self, p: Point)
        ensures
            *final(self) == next_tracker(*old(self), PointerEvent::Down(p)),
    {
        self.state = DragState::Dragging { start: p };
    }

    /// The pointer moved to `p`. During a drag with the button held, the
    /// selection now spans from the drag's start to `p`, and a redraw of it
    /// is requested; otherwise nothing changes.
    pub fn pointer_move(&mut self, p: Point, button_held: bool) -> (r: Option<Redraw>)
        ensures
            *final(self) == next_tracker(*old(self), PointerEvent::Move { at: p, button_held }),
            r == redraw_for(*old(self), PointerEvent::Move { at: p, button_held }),
    {
        match self.state {
            DragState::Dragging { start } => {
                if button_held {
                    let selection = normalize(start, p);
                    let invalidated = match self.shown {
                        Some(previous) => union(previous, selection),
                        None => selection,
                    };
                    self.shown = Some(selection);
                    Some(Redraw { selection, invalidated })
                } else {
                    None
                }
            },
            DragState::Idle => None,
        }
    }

    /// The pointer went up: the drag ends and the last selection stays.
    pub fn pointer_up(&mut self, p: Point)
        ensures
            *final(self) == next_tracker(*old(self), PointerEvent::Up(p)),
    {
        self.state = DragState::Idle;
    }

    /// Feeds one pointer event to the tracker.
    pub fn handle(&mut self, event: PointerEvent) -> (r: Option<Redraw>)
        ensures
            *final(self) == next_tracker(*old(self), event),
            r == redraw_for(*old(self), event),
    {
        match event {
            PointerEvent::Down(p) => {
                self.pointer_down(p);
                None
            },
            PointerEvent::Move { at, button_held } => self.pointer_move(at, button_held),
            PointerEvent::Up(p) => {
                self.pointer_up(p);
                None
            },
        }
    }
}

/// Pressing at `p1` and then moving to `p2` with the button held selects the
/// rectangle whose edges are the smaller and the larger of the two corners'
/// coordinates, whichever way the drag went, and that rectangle is the one
/// kept on screen.
pub proof fn lemma_drag_selects_span(t: SelectionTracker, p1: Point, p2: Point)
    ensures
        ({
            let pressed = next_tracker(t, PointerEvent::Down(p1));
            let moved = PointerEvent::Move { at: p2, button_held: true };
            let expected = SelectionRect {
                left: min_int(p1.x as int, p2.x as int) as i32,
                top: min_int(p1.y as int, p2.y as int) as i32,
                right: max_int(p1.x as int, p2.x as int) as i32,
                bottom: max_int(p1.y as int, p2.y as int) as i32,
            };
            &&& redraw_for(pressed, moved) matches Some(r) && r.selection == expected
            &&& next_tracker(pressed, moved).shown == Some(expected)
            &&& expected == spanned(p2, p1)
        }),
{
}

/// A move without a drag, or without the button held, changes nothing and
/// asks for no redraw.
pub proof fn lemma_stray_move_ignored(t: SelectionTracker, p: Point, button_held: bool)
    requires
        t.state == DragState::Idle || !button_held,
    ensures
        next_tracker(t, PointerEvent::Move { at: p, button_held }) == t,
        redraw_for(t, PointerEvent::Move { at: p, button_held }).is_none(),
{
}

} // verus!
