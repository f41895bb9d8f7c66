use vstd::prelude::*;
use crate::geometry::Point;
use crate::window::{command_ops, Window, WindowOp, WindowType};

verus! {

/// A request addressed to the window in one role.
#[derive(Clone, Copy, Debug, PartialEq, Eq, Structural)]
pub enum Command {
    Show,
    AutoScreenshot,
    TriggerScreenshot,
    Reload,
    Hide,
    DrawRectangle { start: Point, end: Point },
}

#[derive(Clone, Copy, Debug, PartialEq, Eq, Structural)]
pub enum ControllerError {
    /// The role names no slot.
    InvalidRole,
    /// A command against the slot's window failed abnormally; the slot's
    /// state is no longer trusted.
    LockPoisoned,
}

/// The window of one role, if any, and whether the slot was poisoned.
pub struct Slot {
    pub window: Option<Window>,
    pub poisoned: bool,
}

/// The work a dispatch hands back: native operations on one window handle.
pub struct Invocation {
    pub hwnd: isize,
    pub ops: Vec<WindowOp>,
}

/// A window the controller would not take, handed back with the reason.
pub struct Rejected {
    pub error: ControllerError,
    pub window: Window,
}

/// The registry of windows by role: each role has a slot of its own.
pub struct WindowController {
    pub transparent_window: Slot,
    pub opaque_window: Slot,
    pub main_window: Slot,
}

pub open spec fn has_slot(role: WindowType) -> bool {
    role != WindowType::Unset
}

/// The window a slot holds, as a sequence of none or one.
pub open spec fn held_in(slot: Slot) -> Seq<Window> {
    match slot.window {
        Some(w) => seq![w],
        None => seq![],
    }
}

/// How many windows of `s` have the handle `h`.
pub open spec fn count_handle(s: Seq<Window>, h: isize) -> nat
    decreases s.len(),
{
    if s.len() == 0 {
        0
    } else {
        (if s[0].hwnd == h { 1nat } else { 0nat }) + count_handle(s.drop_first(), h)
    }
}

/// The window that a result of `add_window` hands back to the caller, if any.
pub open spec fn handed_back(r: Result<Option<Window>, Rejected>) -> Seq<Window> {
    match r {
        Ok(Some(w)) => seq![w],
        Ok(None) => seq![],
        Err(rej) => seq![rej.window],
    }
}

/// The registry after `add_window(w)`, and the windows handed back by it.
pub open spec fn add_spec(c: WindowController, w: Window) -> (WindowController, Seq<Window>) {
    match w.window_type {
        WindowType::Transparent => if c.transparent_window.poisoned {
            (c, seq![w])
        } else {
            (
                WindowController { transparent_window: Slot { window: Some(w), poisoned: false }, ..c },
                held_in(c.transparent_window),
            )
        },
        WindowType::Opaque => if c.opaque_window.poisoned {
            (c, seq![w])
        } else {
            (WindowController { opaque_window: Slot { window: Some(w), poisoned: false }, ..c }, held_in(c.opaque_window))
        },
        WindowType::Main => if c.main_window.poisoned {
            (c, seq![w])
        } else {
            (WindowController { main_window: Slot { window: Some(w), poisoned: false }, ..c }, held_in(c.main_window))
        },
        WindowType::Unset => (c, seq![w]),
    }
}

/// The registry after `add_window` is called with each of `ws` in turn, and
/// all the windows those calls hand back, in order.
pub open spec fn run_adds(c: WindowController, ws: Seq<Window>) -> (WindowController, Seq<Window>)
    decreases ws.len(),
{
    if ws.len() == 0 {
        (c, seq![])
    } else {
        let (next, back) = add_spec(c, ws[0]);
        let (last, rest) = run_adds(next, ws.drop_first());
        (last, back + rest)
    }
}

impl WindowController {
    /// The slot for `role`.
    pub open spec fn slot(&self, role: WindowType) -> &Slot
        recommends
            has_slot(role),
    {
        match role {
            WindowType::Transparent => &self.transparent_window,
            WindowType::Opaque => &self.opaque_window,
            _ => &self.main_window,
        }
    }

    /// Every slot but the one for `role` is the same in `self` and `other`.
    pub open spec fn others_unchanged(&self, other: &WindowController, role: WindowType) -> bool {
        &&& role != WindowType::Transparent ==> self.transparent_window == other.transparent_window
        &&& role != WindowType::Opaque ==> self.opaque_window == other.opaque_window
        &&& role != WindowType::Main ==> self.main_window == other.main_window
    }

    /// The windows held, by role: overlay, capture display, main.
    pub open spec fn held(&self) -> Seq<Window> {
        held_in(self.transparent_window) + held_in(self.opaque_window) + held_in(self.main_window)
    }

    /// All slots empty and sound.
    pub fn new() -> (r: WindowController)
        ensures
            forall|role: WindowType| has_slot(role) ==> r.slot(role).window.is_none() && !r.slot(role).poisoned,
    {
        WindowController {
            transparent_window: Slot { window: None, poisoned: false },
            opaque_window: Slot { window: None, poisoned: false },
            main_window: Slot { window: None, poisoned: false },
        }
    }

    /// Stores `window` in the slot of its role and hands back the window that
    /// held it before, which the caller then releases: the controller keeps
    /// no reference to it, so it is released once. A window that cannot be
    /// stored comes back with the reason, and nothing changes.
    pub fn add_window(&mut self, window: Window) -> (r: Result<Option<Window>, Rejected>)
        ensures
            !has_slot(window.window_type) ==> (r matches Err(rej) && rej.error == ControllerError::InvalidRole
                && rej.window == window) && *final(self) == *old(self),
            has_slot(window.window_type) && old(self).slot(window.window_type).poisoned ==> (r matches Err(rej)
                && rej.error == ControllerError::LockPoisoned && rej.window == window) && *final(self)
                == *old(self),
            (*final(self), handed_back(r)) == add_spec(*old(self), window),
            has_slot(window.window_type) && !old(self).slot(window.window_type).poisoned ==> {
                &&& r == Ok::<Option<Window>, Rejected>(old(self).slot(window.window_type).window)
                &&& final(self).slot(window.window_type).window == Some(window)
                &&& !final(self).slot(window.window_type).poisoned
                &&& final(self).others_unchanged(old(self), window.window_type)
            },
    {
        let role = window.window_type;
        let slot = match role {
            WindowType::Transparent => &mut self.transparent_window,
            WindowType::Opaque => &mut self.opaque_window,
            WindowType::Main => &mut self.main_window,
            WindowType::Unset => {
                return Err(Rejected { error: ControllerError::InvalidRole, window });
            },
        };
        if slot.poisoned {
            return Err(Rejected { error: ControllerError::LockPoisoned, window });
        }
        let previous = slot.window.take();
        slot.window = Some(window);
        Ok(previous)
    }

    /// Empties every slot and hands back the windows they held, for the
    /// caller to release when the program ends. Poisoned slots stay poisoned.
    pub fn take_all(&mut self) -> (r: Vec<Window>)
        ensures
            r@ == old(self).held(),
            final(self).held() == Seq::<Window>::empty(),
            final(self).transparent_window.poisoned == old(self).transparent_window.poisoned,
            final(self).opaque_window.poisoned == old(self).opaque_window.poisoned,
            final(self).main_window.poisoned == old(self).main_window.poisoned,
    {
        let mut windows: Vec<Window> = Vec::new();
        let ghost before = self.held();
        if let Some(w) = self.transparent_window.window.take() {
            windows.push(w);
        }
        if let Some(w) = self.opaque_window.window.take() {
            windows.push(w);
        }
        if let Some(w) = self.main_window.window.take() {
            windows.push(w);
        }
        assert(windows@ =~= before);
        assert(self.held() =~= Seq::<Window>::empty());
        windows
    }

    /// The work that `command` asks of the window in `role`: none where the
    /// slot is empty, which is no error.
    pub fn dispatch(&self, window_type: WindowType, command: Command) -> (r: Result<Option<Invocation>, ControllerError>)
        ensures
            !has_slot(window_type) ==> r == Err::<Option<Invocation>, ControllerError>(ControllerError::InvalidRole),
            has_slot(window_type) && self.slot(window_type).poisoned ==> r == Err::<Option<Invocation>, ControllerError>(
                ControllerError::LockPoisoned),
            has_slot(window_type) && !self.slot(window_type).poisoned ==> match self.slot(window_type).window {
                None => r == Ok::<Option<Invocation>, ControllerError>(None),
                Some(w) => (r matches Ok(Some(inv)) && inv.hwnd == w.hwnd && inv.ops@ == command_ops(command)),
            },
    {
        let slot = match window_type {
            WindowType::Transparent => &self.transparent_window,
            WindowType::Opaque => &self.opaque_window,
            WindowType::Main => &self.main_window,
            WindowType::Unset => {
                return Err(ControllerError::InvalidRole);
            },
        };
        if slot.poisoned {
            return Err(ControllerError::LockPoisoned);
        }
        match &slot.window {
            None => Ok(None),
            Some(w) => Ok(Some(Invocation { hwnd: w.hwnd, ops: w.operations(command) })),
        }
    }

    /// Records that a command against the window in `role` failed abnormally
    /// while it held the slot; every later access to the slot fails.
    pub fn poison(&mut self, window_type: WindowType) -> (r: Result<(), ControllerError>)
        ensures
            !has_slot(window_type) ==> r == Err::<(), ControllerError>(ControllerError::InvalidRole)
                && *final(self) == *old(self),
            has_slot(window_type) ==> {
                &&& r == Ok::<(), ControllerError>(())
                &&& final(self).slot(window_type).poisoned
                &&& final(self).slot(window_type).window == old(self).slot(window_type).window
                &&& final(self).others_unchanged(old(self), window_type)
            },
    {
        match window_type {
            WindowType::Transparent => self.transparent_window.poisoned = true,
            WindowType::Opaque => self.opaque_window.poisoned = true,
            WindowType::Main => self.main_window.poisoned = true,
            WindowType::Unset => {
                return Err(ControllerError::InvalidRole);
            },
        }
        Ok(())
    }
}

proof fn lemma_count_concat(a: Seq<Window>, b: Seq<Window>, h: isize)
    ensures
        count_handle(a + b, h) == count_handle(a, h) + count_handle(b, h),
    decreases a.len(),
{
    if a.len() == 0 {
        assert(a + b =~= b);
    } else {
        assert((a + b).drop_first() =~= a.drop_first() + b);
        lemma_count_concat(a.drop_first(), b, h);
    }
}

proof fn lemma_count_single(w: Window, h: isize)
    ensures
        count_handle(seq![w], h) == (if w.hwnd == h { 1nat } else { 0nat }),
{
    let s = seq![w];
    assert(s.drop_first() =~= Seq::<Window>::empty());
    assert(count_handle(s.drop_first(), h) == 0);
    assert(s[0] == w);
}

proof fn lemma_count_held(c: WindowController, h: isize)
    ensures
        count_handle(c.held(), h) == count_handle(held_in(c.transparent_window), h) + count_handle(
            held_in(c.opaque_window),
            h,
        ) + count_handle(held_in(c.main_window), h),
{
    lemma_count_concat(held_in(c.transparent_window), held_in(c.opaque_window), h);
    lemma_count_concat(held_in(c.transparent_window) + held_in(c.opaque_window), held_in(c.main_window), h);
}

proof fn lemma_add_conserves(c: WindowController, w: Window, h: isize)
    ensures
        count_handle(add_spec(c, w).0.held(), h) + count_handle(add_spec(c, w).1, h) == count_handle(c.held(), h)
            + (if w.hwnd == h { 1nat } else { 0nat }),
{
    lemma_count_held(c, h);
    lemma_count_held(add_spec(c, w).0, h);
    lemma_count_single(w, h);
}

/// Over any sequence of `add_window` calls, every window handed in, and every
/// window held at the start, is either held at the end, and so handed back by
/// `take_all`, or was handed back by one of the calls: counted by handle,
/// each comes back exactly once, so none leaks and none is released twice.
pub proof fn lemma_every_window_handed_back_once(c: WindowController, ws: Seq<Window>, h: isize)
    ensures
        count_handle(run_adds(c, ws).0.held(), h) + count_handle(run_adds(c, ws).1, h) == count_handle(c.held(), h)
            + count_handle(ws, h),
    decreases ws.len(),
{
    if ws.len() > 0 {
        let (next, back) = add_spec(c, ws[0]);
        lemma_add_conserves(c, ws[0], h);
        lemma_every_window_handed_back_once(next, ws.drop_first(), h);
        lemma_count_concat(back, run_adds(next, ws.drop_first()).1, h);
    }
}

} // verus!
