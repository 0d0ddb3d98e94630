//! The kinds of file system events that a watcher asks for.
use vstd::prelude::*;

verus! {

/// Interested in create events.
pub const CREATE: u8 = 1;

/// Interested in change events.
pub const CHANGE: u8 = 2;

/// Interested in delete events.
pub const DELETE: u8 = 4;

} // verus!
