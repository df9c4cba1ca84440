//! fathom — the logic of a framework for GPU simulation apps with an interface around
//! them, with its contracts proved.
//!
//! The framework's state — the parameter block, the transport, command dispatch, the
//! bookkeeping of the two bundled apps and the schemas they declare — lives here. What
//! draws, presents or does floating-point physics is the host's.
pub mod app;
pub mod ecp_life;
pub mod event;
pub mod gravity;
pub mod native;
pub mod params;
pub mod rng;
pub mod runner;
pub mod shell;
pub mod text;

use vstd::prelude::*;

verus! {

} // verus!
