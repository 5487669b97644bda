//! Search depth: positive values are remaining full-width plies, zero or
//! less hands over to quiescence.  Terminal positions behave as if
//! searched infinitely deep, quiescence results as depth zero.

use vstd::prelude::*;

verus! {

pub type Depth = i64;

/// The depth reported for a terminal position: effectively infinite.
pub const DEPTH_EDGE: Depth = 4611686018427387903;

/// The depth reported for a quiescence-horizon evaluation.
pub const DEPTH_LEAF: Depth = 0;

/// The deepest full-width search the engine will ever attempt; keeps
/// depth arithmetic trivially in bounds.
pub const DEPTH_MAX: Depth = 10000;

} // verus!
