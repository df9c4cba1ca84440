//! Input, normalised: the parts of an event that hold no coordinates.
//!
//! Both targets capture input in one place and send it down one path. Coordinates are
//! the host's business; what travels here is which keys and modifiers were involved.
use vstd::prelude::*;

verus! {

/// The modifier keys held during an event.
#[derive(Clone, Copy, Debug, Default, PartialEq, Eq, Structural)]
pub struct Modifiers {
    pub shift: bool,
    pub ctrl: bool,
    pub alt: bool,
}

/// A key going down or up, named as the interface names it.
#[derive(Clone, Debug, Default)]
pub struct KeyEvent {
    pub key: String,
    pub shift: bool,
    pub ctrl: bool,
    pub alt: bool,
}

} // verus!
