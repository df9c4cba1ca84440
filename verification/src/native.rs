//! The native host's messages and its render surface.
//!
//! The render thread and the interface talk in two ways, on purpose. Parameters, input
//! and commands are *events*: ordered, each one matters, and they travel as
//! [`Message`]s. Where to draw, and whether the window is on screen, are *state*: only
//! the latest value matters. This module holds the events, what the interface is told at
//! boot, and the surface decisions the loop makes every frame.
//!
pub mod child;
pub mod surface;

use vstd::prelude::*;

verus! {

/// An event from the interface to the render thread.
///
/// There is deliberately no "shut down" variant: the renderer belongs to the process,
/// not to any one mount of the interface.
pub enum Message {
    Params(Vec<u8>),
    Input(String),
    Command { name: String, args: String },
}

/// What the interface needs before it can build itself.
#[derive(Clone, Debug)]
pub struct Boot {
    pub descriptor: String,
    pub param_byte_length: usize,
    pub adapter_info: String,
}

/// The reply to the interface's first call.
pub struct InitReply {
    /// The app's parameter and command schema, as JSON.
    pub descriptor: String,
    pub param_byte_length: usize,
    pub adapter_info: String,
}

impl InitReply {
    /// The reply to the interface, once the GPU is up.
    pub fn from_boot(boot: Boot) -> (r: Self)
        ensures
            r.descriptor == boot.descriptor,
            r.param_byte_length == boot.param_byte_length,
            r.adapter_info == boot.adapter_info,
    {
        InitReply {
            descriptor: boot.descriptor,
            param_byte_length: boot.param_byte_length,
            adapter_info: boot.adapter_info,
        }
    }
}

/// Whether the surface has been given a real size yet; until it has, the loop idles
/// rather than presenting into a void.
pub fn sized(width: u32, height: u32) -> (r: bool)
    ensures
        r == (width > 1 && height > 1),
{
    width > 1 && height > 1
}

/// Whether the render loop draws a frame: only into a window that is on screen and a
/// surface that has been given a real size. Presenting to a minimised window does not
/// fail — it blocks — so the loop idles instead.
pub fn frame_ready(visible: bool, width: u32, height: u32) -> (r: bool)
    ensures
        r == (visible && width > 1 && height > 1),
{
    visible && sized(width, height)
}

/// Whether the surface must be reconfigured for a new size.
pub fn needs_configure(current: (u32, u32), width: u32, height: u32) -> (r: bool)
    ensures
        r == (current.0 != width || current.1 != height),
{
    current.0 != width || current.1 != height
}

/// A surface size the GPU accepts: no side may be zero.
pub fn surface_size(width: u32, height: u32) -> (r: (u32, u32))
    ensures
        r.0 == (if width < 1 { 1 } else { width }),
        r.1 == (if height < 1 { 1 } else { height }),
        r.0 >= 1 && r.1 >= 1,
{
    (if width < 1 { 1 } else { width }, if height < 1 { 1 } else { height })
}

} // verus!
