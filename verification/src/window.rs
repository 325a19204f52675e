//! Messages of the hidden tray window.
use vstd::prelude::*;

verus! {

/// `WM_DESTROY`.
pub const WM_DESTROY: u32 = 0x0002;

/// `WM_USER`.
pub const WM_USER: u32 = 0x0400;

/// The message the tray icon sends to the window: `WM_USER + 1`.
pub const WM_TRAY_CALLBACK: u32 = 0x0401;

/// `WM_LBUTTONUP`.
pub const WM_LBUTTONUP: u32 = 0x0202;

/// `WM_RBUTTONUP`.
pub const WM_RBUTTONUP: u32 = 0x0205;

/// What a window message means to the application.
#[derive(Debug, Clone, Copy, PartialEq, Eq, Structural)]
pub enum WindowEvent {
    /// The window is destroyed: leave the message loop.
    Quit,
    /// Left click on the tray icon: the clipboard panel.
    TrayLeftClick,
    /// Right click on the tray icon: the context menu.
    TrayRightClick,
    /// Another mouse event on the tray icon; handled by doing nothing.
    TrayOther,
    /// Any other message, left to the default window procedure.
    Unhandled,
}

/// The meaning of message `msg` with parameter `lparam`; for tray icon
/// messages the mouse message is the low 32 bits of `lparam`.
pub open spec fn window_event_of(msg: u32, lparam: isize) -> WindowEvent {
    if msg == WM_DESTROY {
        WindowEvent::Quit
    } else if msg == WM_TRAY_CALLBACK {
        let mouse = lparam as u32;
        if mouse == WM_LBUTTONUP {
            WindowEvent::TrayLeftClick
        } else if mouse == WM_RBUTTONUP {
            WindowEvent::TrayRightClick
        } else {
            WindowEvent::TrayOther
        }
    } else {
        WindowEvent::Unhandled
    }
}

/// Classifies a message received by the tray window.
pub fn classify_message(msg: u32, lparam: isize) -> (ev: WindowEvent)
    ensures
        ev == window_event_of(msg, lparam),
{
    if msg == WM_DESTROY {
        WindowEvent::Quit
    } else if msg == WM_TRAY_CALLBACK {
        let mouse = lparam as u32;
        if mouse == WM_LBUTTONUP {
            WindowEvent::TrayLeftClick
        } else if mouse == WM_RBUTTONUP {
            WindowEvent::TrayRightClick
        } else {
            WindowEvent::TrayOther
        }
    } else {
        WindowEvent::Unhandled
    }
}

} // verus!
