//! An ephemeral chat relay: sessions, a registry of connections, a lossy
//! broadcast bus and the per-connection state machine that ties them together.

use vstd::prelude::*;

pub mod assets;
pub mod bus;
pub mod calls;
pub mod event;
pub mod guarantees;
pub mod lifecycle;
pub mod protocol;
pub mod registry;
pub mod relay;
pub mod render;
pub mod session;
pub mod text;

verus! {

/// Number of events the broadcast bus retains unless told otherwise.
pub const DEFAULT_CAPACITY: usize = 128;

} // verus!
