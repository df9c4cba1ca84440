//! The child window the simulation renders into.
//!
//! The child-window arrangement lives below the webview in the z-order so the operating
//! system moves, resizes and clips it with its parent. It is implemented for Windows
//! only; on this platform creating one fails with a message that says so.
use vstd::prelude::*;

verus! {

broadcast use vstd::string::to_string_from_display_ensures_for_str;

/// Why there is no child surface on this platform.
pub const UNSUPPORTED: &'static str =
    "fathom's native target currently implements its child surface on Windows only. The web target works everywhere; macOS (NSView subview) and Linux are the next platforms to fill in here.";

/// A child window the simulation renders into, addressed by raw handles so it can be
/// sent to the render thread.
#[derive(Clone, Copy, Debug)]
pub struct ChildSurface {
    window: isize,
    instance: isize,
}

/// Create a child surface inside `parent`: on this platform, an error saying there is
/// none.
pub fn create(parent: isize) -> (r: Result<ChildSurface, String>)
    ensures
        r matches Err(e) && e@ == UNSUPPORTED@,
{
    Err(UNSUPPORTED.to_string())
}

/// Move and resize a child surface: on this platform, nothing to move.
pub fn set_rect(surface: &ChildSurface, x: i32, y: i32, width: u32, height: u32) {
}

impl ChildSurface {
    /// Create the child window. Must run on the thread that owns `parent`.
    pub fn create(parent: isize) -> (r: Result<Self, String>)
        ensures
            r matches Err(e) && e@ == UNSUPPORTED@,
    {
        create(parent)
    }

    /// Move and resize, in physical pixels relative to the parent's client area.
    pub fn set_rect(&self, x: i32, y: i32, width: u32, height: u32) {
        set_rect(self, x, y, width, height)
    }
}

} // verus!
