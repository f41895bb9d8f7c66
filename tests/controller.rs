use region_capture::controller::{Command, ControllerError, WindowController};
use region_capture::geometry::{Point, SelectionRect};
use region_capture::window::{Window, WindowOp, WindowType};
use std::collections::HashMap;

/// Stands in for the native window handles: counts how often each is destroyed.
struct HandleCounter {
    destroyed: HashMap<isize, u32>,
}

impl HandleCounter {
    fn new() -> Self {
        HandleCounter { destroyed: HashMap::new() }
    }

    fn destroy(&mut self, window: Window) {
        *self.destroyed.entry(window.hwnd).or_insert(0) += 1;
    }

    fn count(&self, hwnd: isize) -> u32 {
        self.destroyed.get(&hwnd).copied().unwrap_or(0)
    }
}

fn window(hwnd: isize, window_type: WindowType) -> Window {
    Window { hwnd, window_type }
}

#[test]
fn dispatch_to_empty_role_succeeds_without_work() {
    let c = WindowController::new();
    for role in [WindowType::Transparent, WindowType::Opaque, WindowType::Main] {
        for cmd in [Command::Show, Command::Hide, Command::Reload, Command::AutoScreenshot] {
            assert!(matches!(c.dispatch(role, cmd), Ok(None)));
        }
    }
}

#[test]
fn dispatch_reaches_the_window_of_the_role() {
    let mut c = WindowController::new();
    assert!(matches!(c.add_window(window(7, WindowType::Opaque)), Ok(None)));
    let inv = c.dispatch(WindowType::Opaque, Command::Reload).unwrap().unwrap();
    assert_eq!(inv.hwnd, 7);
    assert_eq!(inv.ops, vec![WindowOp::Hide, WindowOp::Show]);
    assert!(matches!(c.dispatch(WindowType::Transparent, Command::Show), Ok(None)));
    let draw = Command::DrawRectangle { start: Point { x: 9, y: 2 }, end: Point { x: 1, y: 8 } };
    assert!(matches!(c.dispatch(WindowType::Opaque, draw), Ok(Some(_))));
    let inv = c.dispatch(WindowType::Opaque, draw).unwrap().unwrap();
    assert_eq!(
        inv.ops,
        vec![WindowOp::DrawSelection(SelectionRect { left: 1, top: 2, right: 9, bottom: 8 })]
    );
    let inv = c.dispatch(WindowType::Opaque, Command::TriggerScreenshot).unwrap().unwrap();
    assert_eq!(inv.ops, vec![WindowOp::Repaint]);
    let inv = c.dispatch(WindowType::Opaque, Command::AutoScreenshot).unwrap().unwrap();
    assert_eq!(inv.ops, vec![WindowOp::RenderCapture]);
}

#[test]
fn replaced_window_is_destroyed_once() {
    let mut counter = HandleCounter::new();
    let mut c = WindowController::new();
    for hwnd in [11, 12, 13] {
        if let Some(previous) = c.add_window(window(hwnd, WindowType::Transparent)).ok().unwrap() {
            counter.destroy(previous);
        }
    }
    assert_eq!(counter.count(11), 1);
    assert_eq!(counter.count(12), 1);
    assert_eq!(counter.count(13), 0);
    let inv = c.dispatch(WindowType::Transparent, Command::Show).unwrap().unwrap();
    assert_eq!(inv.hwnd, 13);
    assert_eq!(c.opaque_window.window, None);
}

#[test]
fn unset_role_is_invalid() {
    let mut c = WindowController::new();
    assert!(matches!(c.dispatch(WindowType::Unset, Command::Show), Err(ControllerError::InvalidRole)));
    let rejected = c.add_window(window(3, WindowType::Unset)).err().unwrap();
    assert_eq!(rejected.error, ControllerError::InvalidRole);
    assert_eq!(rejected.window.hwnd, 3);
    assert_eq!(c.poison(WindowType::Unset), Err(ControllerError::InvalidRole));
}

#[test]
fn poisoned_slot_fails_fast_and_others_work() {
    let mut c = WindowController::new();
    assert!(c.add_window(window(1, WindowType::Opaque)).is_ok());
    assert!(c.add_window(window(2, WindowType::Transparent)).is_ok());
    assert_eq!(c.poison(WindowType::Opaque), Ok(()));
    assert!(matches!(c.dispatch(WindowType::Opaque, Command::Show), Err(ControllerError::LockPoisoned)));
    let rejected = c.add_window(window(4, WindowType::Opaque)).err().unwrap();
    assert_eq!(rejected.error, ControllerError::LockPoisoned);
    assert_eq!(rejected.window.hwnd, 4);
    assert_eq!(c.dispatch(WindowType::Transparent, Command::Hide).unwrap().unwrap().hwnd, 2);
}

#[test]
fn every_window_released_once_over_a_run() {
    let mut counter = HandleCounter::new();
    let mut c = WindowController::new();
    let added = [
        window(1, WindowType::Transparent),
        window(2, WindowType::Opaque),
        window(3, WindowType::Transparent),
        window(4, WindowType::Unset),
        window(5, WindowType::Main),
        window(6, WindowType::Opaque),
        window(7, WindowType::Transparent),
    ];
    for w in added {
        match c.add_window(w) {
            Ok(Some(previous)) => counter.destroy(previous),
            Ok(None) => {}
            Err(rejected) => counter.destroy(rejected.window),
        }
    }
    for w in c.take_all() {
        counter.destroy(w);
    }
    for hwnd in 1..=7 {
        assert_eq!(counter.count(hwnd), 1);
    }
    assert!(c.take_all().is_empty());
    assert!(matches!(c.dispatch(WindowType::Opaque, Command::Show), Ok(None)));
}

#[test]
fn take_all_keeps_poison() {
    let mut c = WindowController::new();
    assert!(c.add_window(window(8, WindowType::Main)).is_ok());
    assert_eq!(c.poison(WindowType::Main), Ok(()));
    let taken = c.take_all();
    assert_eq!(taken.len(), 1);
    assert_eq!(taken[0].hwnd, 8);
    assert!(matches!(c.dispatch(WindowType::Main, Command::Show), Err(ControllerError::LockPoisoned)));
}
