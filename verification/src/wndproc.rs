//! How the wallpaper windows answer window messages: they let the mouse
//! through to the desktop, never take the focus, and paint nothing
//! themselves (the renderer draws into them).
use vstd::prelude::*;

verus! {

pub const WM_DESTROY: u32 = 0x0002;

pub const WM_PAINT: u32 = 0x000F;

pub const WM_ERASEBKGND: u32 = 0x0014;

pub const WM_MOUSEACTIVATE: u32 = 0x0021;

pub const WM_NCHITTEST: u32 = 0x0084;

/// Hit-test result: the window is transparent to the mouse.
pub const HTTRANSPARENT: isize = -1;

/// Mouse activation result: do not activate.
pub const MA_NOACTIVATE: isize = 3;

/// How a wallpaper window answers a message.
#[derive(Clone, Copy, PartialEq, Eq, Debug, Structural)]
pub enum WindowReply {
    /// Return this value.
    Return(isize),
    /// Validate the window (`BeginPaint`/`EndPaint`) and return 0.
    Paint,
    /// Note that the window is gone and return 0.
    Destroyed,
    /// Leave it to `DefWindowProcW`.
    Default,
}

pub open spec fn wallpaper_reply(message: u32) -> WindowReply {
    if message == WM_NCHITTEST {
        WindowReply::Return(HTTRANSPARENT)
    } else if message == WM_MOUSEACTIVATE {
        WindowReply::Return(MA_NOACTIVATE)
    } else if message == WM_DESTROY {
        WindowReply::Destroyed
    } else if message == WM_ERASEBKGND {
        WindowReply::Return(1)
    } else if message == WM_PAINT {
        WindowReply::Paint
    } else {
        WindowReply::Default
    }
}

/// How a wallpaper window answers `message`.
pub fn wallpaper_window_reply(message: u32) -> (r: WindowReply)
    ensures
        r == wallpaper_reply(message),
{
    if message == WM_NCHITTEST {
        WindowReply::Return(HTTRANSPARENT)
    } else if message == WM_MOUSEACTIVATE {
        WindowReply::Return(MA_NOACTIVATE)
    } else if message == WM_DESTROY {
        WindowReply::Destroyed
    } else if message == WM_ERASEBKGND {
        WindowReply::Return(1)
    } else if message == WM_PAINT {
        WindowReply::Paint
    } else {
        WindowReply::Default
    }
}

} // verus!
