use vstd::prelude::*;
use crate::controller::Command;
use crate::errors::{throw_error, Failure};
use crate::geometry::{normalize, spanned, SelectionRect};

verus! {

/// The role a window plays.
#[derive(Clone, Copy, Debug, PartialEq, Eq, Structural)]
pub enum WindowType {
    /// The click-through overlay on which the selection is drawn.
    Transparent,
    /// The window that shows the captured desktop.
    Opaque,
    Main,
    Unset,
}

/// A native window handle and the role it was created for. The handle is
/// released by whoever holds the value last.
#[derive(Debug, PartialEq, Eq, Structural)]
pub struct Window {
    pub hwnd: isize,
    pub window_type: WindowType,
}

/// One native operation on a window.
#[derive(Clone, Copy, Debug, PartialEq, Eq, Structural)]
pub enum WindowOp {
    Show,
    Hide,
    /// Invalidate and erase the whole window so that it paints again.
    Repaint,
    /// Capture the desktop and draw it over the whole window.
    RenderCapture,
    /// Draw the selection rectangle.
    DrawSelection(SelectionRect),
}

/// The native operations that carry out `command`, in order.
pub open spec fn command_ops(command: Command) -> Seq<WindowOp> {
    match command {
        Command::Show => seq![WindowOp::Show],
        Command::Hide => seq![WindowOp::Hide],
        Command::Reload => seq![WindowOp::Hide, WindowOp::Show],
        Command::TriggerScreenshot => seq![WindowOp::Repaint],
        Command::AutoScreenshot => seq![WindowOp::RenderCapture],
        Command::DrawRectangle { start, end } => seq![WindowOp::DrawSelection(spanned(start, end))],
    }
}

impl Window {
    pub fn get_hwnd(&self) -> (r: isize)
        ensures
            r == self.hwnd,
    {
        self.hwnd
    }

    /// Hides the window, then shows it again, so that it repaints and captures anew.
    pub fn reload(&self) -> (r: Vec<WindowOp>)
        ensures
            r@ == seq![WindowOp::Hide, WindowOp::Show],
    {
        vec![WindowOp::Hide, WindowOp::Show]
    }

    /// The native operations that carry out `command` on this window, in order.
    pub fn operations(&self, command: Command) -> (r: Vec<WindowOp>)
        ensures
            r@ == command_ops(command),
    {
        match command {
            Command::Show => vec![WindowOp::Show],
            Command::Hide => vec![WindowOp::Hide],
            Command::Reload => self.reload(),
            Command::TriggerScreenshot => vec![WindowOp::Repaint],
            Command::AutoScreenshot => vec![WindowOp::RenderCapture],
            Command::DrawRectangle { start, end } => vec![WindowOp::DrawSelection(normalize(start, end))],
        }
    }
}

/// Origin and extent of the rectangle that spans all monitors.
#[derive(Clone, Copy, Debug, PartialEq, Eq, Structural)]
pub struct VirtualScreen {
    pub x: i32,
    pub y: i32,
    pub width: i32,
    pub height: i32,
}

#[derive(Clone, Copy, Debug, PartialEq, Eq, Structural)]
pub enum Cursor {
    Arrow,
    Cross,
}

/// Constant opacity of the overlay: 55% of full.
pub const OVERLAY_ALPHA: u8 = 140;

/// The overlay's colour key: black.
pub const OVERLAY_COLOR_KEY: u32 = 0x000000;

/// Everything a window of one role is created with.
#[derive(Clone, Copy, Debug)]
pub struct WindowProps {
    pub class_name: &'static str,
    pub window_name: &'static str,
    /// Composited with a constant alpha and passing pointer input through.
    pub layered: bool,
    pub composited: bool,
    pub popup: bool,
    pub x: i32,
    pub y: i32,
    pub width: i32,
    pub height: i32,
    pub cursor: Cursor,
    /// The class paints its background black.
    pub black_background: bool,
    /// Constant alpha applied once the window exists.
    pub alpha: Option<u8>,
    /// Colour, as 0x00BBGGRR, that is shown fully transparent once the window exists.
    pub color_key: Option<u32>,
}

pub struct TransparentWindowFactory;

pub struct OpaqueWindowFactory;

impl TransparentWindowFactory {
    pub open spec fn props_spec(screen: VirtualScreen) -> WindowProps {
        WindowProps {
            class_name: "TransparentWindowClass",
            window_name: "TransparentWindow",
            layered: true,
            composited: true,
            popup: true,
            x: screen.x,
            y: screen.y,
            width: screen.width,
            height: screen.height,
            cursor: Cursor::Cross,
            black_background: true,
            alpha: Some(OVERLAY_ALPHA),
            color_key: Some(OVERLAY_COLOR_KEY),
        }
    }

    /// The overlay covers the whole virtual screen, layered over it with a
    /// cross cursor, 55% opaque, with black keyed out.
    pub fn window_props(&self, screen: VirtualScreen) -> (r: WindowProps)
        ensures
            r == Self::props_spec(screen),
    {
        WindowProps {
            class_name: "TransparentWindowClass",
            window_name: "TransparentWindow",
            layered: true,
            composited: true,
            popup: true,
            x: screen.x,
            y: screen.y,
            width: screen.width,
            height: screen.height,
            cursor: Cursor::Cross,
            black_background: true,
            alpha: Some(OVERLAY_ALPHA),
            color_key: Some(OVERLAY_COLOR_KEY),
        }
    }
}

impl OpaqueWindowFactory {
    pub open spec fn props_spec(screen: VirtualScreen) -> WindowProps {
        WindowProps {
            class_name: "OpaqueWindowClass",
            window_name: "OpaqueWindow",
            layered: false,
            composited: true,
            popup: true,
            x: screen.x,
            y: screen.y,
            width: screen.width,
            height: screen.height,
            cursor: Cursor::Arrow,
            black_background: false,
            alpha: None,
            color_key: None,
        }
    }

    /// The capture display covers the whole virtual screen with an arrow cursor.
    pub fn window_props(&self, screen: VirtualScreen) -> (r: WindowProps)
        ensures
            r == Self::props_spec(screen),
    {
        WindowProps {
            class_name: "OpaqueWindowClass",
            window_name: "OpaqueWindow",
            layered: false,
            composited: true,
            popup: true,
            x: screen.x,
            y: screen.y,
            width: screen.width,
            height: screen.height,
            cursor: Cursor::Arrow,
            black_background: false,
            alpha: None,
            color_key: None,
        }
    }
}

/// Chooses what a window is created with from the role it is for.
pub struct WindowBuilder {
    pub window_type: WindowType,
}

impl WindowBuilder {
    pub fn new() -> (r: WindowBuilder)
        ensures
            r.window_type == WindowType::Unset,
    {
        WindowBuilder { window_type: WindowType::Unset }
    }

    pub fn set_window_type(self, window_type: WindowType) -> (r: WindowBuilder)
        ensures
            r.window_type == window_type,
    {
        WindowBuilder { window_type }
    }

    /// The properties of the window for the chosen role. Only the overlay
    /// and the capture display can be built.
    pub fn build(&self, screen: VirtualScreen) -> (r: Result<WindowProps, Failure>)
        ensures
            self.window_type == WindowType::Transparent ==> r == Ok::<WindowProps, Failure>(
                TransparentWindowFactory::props_spec(screen),
            ),
            self.window_type == WindowType::Opaque ==> r == Ok::<WindowProps, Failure>(
                OpaqueWindowFactory::props_spec(screen),
            ),
            self.window_type == WindowType::Main ==> r == Err::<WindowProps, Failure>(
                Failure { message: "Main window not implemented", os_code: None },
            ),
            self.window_type == WindowType::Unset ==> r == Err::<WindowProps, Failure>(
                Failure { message: "No window type set", os_code: None },
            ),
    {
        match self.window_type {
            WindowType::Transparent => Ok(TransparentWindowFactory.window_props(screen)),
            WindowType::Opaque => Ok(OpaqueWindowFactory.window_props(screen)),
            WindowType::Main => throw_error("Main window not implemented"),
            WindowType::Unset => throw_error("No window type set"),
        }
    }
}

} // verus!
