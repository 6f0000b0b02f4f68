//! The window as something to draw on.

use crate::number::{signed, to_signed};
use crate::window::WindowSystem;
use vstd::prelude::*;

verus! {

/// A window with an active rendering context.
#[derive(Debug, Clone, Copy, PartialEq, Eq, Hash, Structural)]
pub struct WinitGraphicsBackend {
    /// The window system, which decides which kind of context and surface the window has.
    pub system: WindowSystem,
}

impl WinitGraphicsBackend {
    /// The backend of a window of the given window system.
    pub fn new(system: WindowSystem) -> (r: WinitGraphicsBackend)
        ensures
            r.system == system,
    {
        WinitGraphicsBackend { system }
    }

    /// The coordinates to hand to the window, whose positions have a sign, when the cursor is
    /// to be moved.
    pub fn set_cursor_position(&self, x: u32, y: u32) -> (r: (i32, i32))
        ensures
            r.0 == signed(x),
            r.1 == signed(y),
    {
        (to_signed(x), to_signed(y))
    }

    /// The size of the frame: the inner size of the window, which must still have one.
    pub fn get_framebuffer_dimensions(&self, inner_size: Option<(u32, u32)>) -> (r: (u32, u32))
        requires
            inner_size is Some,
        ensures
            inner_size == Some(r),
    {
        inner_size.unwrap()
    }

    /// Whether drawing goes to this window: both its context and its surface are current.
    pub fn is_current(&self, context: bool, surface: bool) -> (r: bool)
        ensures
            r <==> context && surface,
    {
        context && surface
    }
}

} // verus!
