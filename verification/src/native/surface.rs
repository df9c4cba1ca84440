//! The window the simulation renders into, beneath the transparent interface.
//!
//! A borderless top-level window owned by the interface's window, so it is always
//! ordered directly beneath its owner. It is implemented for Windows only; on this
//! platform creating one fails with a message that says so, and moving or restacking one
//! does nothing.
use vstd::prelude::*;

verus! {

broadcast use vstd::string::to_string_from_display_ensures_for_str;

/// Why there is no overlay surface on this platform.
pub const UNSUPPORTED: &'static str =
    "fathom's native target implements its render surface on Windows only so far. The web target works everywhere WebGPU does; macOS (an NSView subview, which does not have the composition problem Windows has) and Linux are the next platforms to fill in here.";

/// The window the simulation renders into beneath the transparent interface, owned by
/// the interface's window.
#[derive(Clone, Copy, Debug)]
pub struct OverlaySurface {
    window: isize,
    parent: isize,
    instance: isize,
}

/// Create an overlay surface owned by `parent`: on this platform, an error saying there
/// is none.
pub fn create(parent: isize) -> (r: Result<OverlaySurface, String>)
    ensures
        r matches Err(e) && e@ == UNSUPPORTED@,
{
    Err(UNSUPPORTED.to_string())
}

/// Move and resize an overlay surface: on this platform, nothing to move.
pub fn set_rect(surface: &OverlaySurface, x: i32, y: i32, width: u32, height: u32) {
}

/// Put an overlay surface back beneath the interface: on this platform, nothing to move.
pub fn restack(surface: &OverlaySurface) {
}

impl OverlaySurface {
    /// Create the surface window, owned by `parent`. Must run on the thread that owns
    /// `parent`.
    pub fn create(parent: isize) -> (r: Result<Self, String>)
        ensures
            r matches Err(e) && e@ == UNSUPPORTED@,
    {
        create(parent)
    }

    /// Move and resize, given a rect relative to the parent's client area in physical
    /// pixels: on this platform, nothing to move.
    pub fn set_rect(&self, x: i32, y: i32, width: u32, height: u32) {
        set_rect(self, x, y, width, height)
    }

    /// Put the surface back directly beneath the interface.
    pub fn restack(&self) {
        restack(self)
    }
}

} // verus!
