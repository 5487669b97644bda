//! When a search must stop: a wall-clock instant, a depth cap, a
//! front-end trigger, or nothing at all.  The clock and the trigger are
//! outside the reach of proofs; the depth cap is plain verified logic.

use vstd::prelude::*;

use std::sync::atomic::{AtomicBool, Ordering};

use crate::depth::Depth;

verus! {

#[verifier::external_type_specification]
#[verifier::external_body]
pub struct ExInstant(std::time::Instant);

/// Relies on std::time::Instant::now; also how the engine reads the
/// clock when a search starts.
#[verifier::external_body]
pub(crate) fn search_clock() -> std::time::Instant {
    std::time::Instant::now()
}

/// Relies on core::time::Duration::from_millis.
#[verifier::external_body]
fn duration_from_millis(ms: u64) -> core::time::Duration {
    core::time::Duration::from_millis(ms)
}

/// Relies on std::time::Instant::checked_add: None when the instant is
/// not representable.
#[verifier::external_body]
fn instant_checked_add(t: &std::time::Instant, d: core::time::Duration) -> Option<
    std::time::Instant,
> {
    t.checked_add(d)
}

/// Relies on the Ord impl of std::time::Instant.
#[verifier::external_body]
fn instant_le(a: &std::time::Instant, b: &std::time::Instant) -> bool {
    *a <= *b
}

/// A deadline a search polls: an optional wall-clock limit, an optional
/// depth cap, and a trigger the front end can flip at any time.
pub struct Deadline {
    deadline: Option<std::time::Instant>,
    trigger: AtomicBool,
    max_depth: Option<Depth>,
}

impl Deadline {
    /// The depth cap, if one was set.
    pub closed spec fn spec_max_depth(self) -> Option<Depth> {
        self.max_depth
    }

    /// No limit at all: stops only when triggered.
    pub fn none() -> (r: Deadline)
        ensures
            r.spec_max_depth() is None,
    {
        Deadline { deadline: None, trigger: AtomicBool::new(false), max_depth: None }
    }

    /// Stops once the completed depth reaches the cap.
    pub fn depth(depth: Depth) -> (r: Deadline)
        ensures
            r.spec_max_depth() == Some(depth),
    {
        Deadline { deadline: None, trigger: AtomicBool::new(false), max_depth: Some(depth) }
    }

    /// Stops when the given number of milliseconds has passed.  If the
    /// instant is out of the clock's range, the deadline degrades to a
    /// trigger-only one.
    pub fn timeout(ms: u64) -> (r: Deadline)
        ensures
            r.spec_max_depth() is None,
    {
        let now = search_clock();
        Deadline {
            deadline: instant_checked_add(&now, duration_from_millis(ms)),
            trigger: AtomicBool::new(false),
            max_depth: None,
        }
    }

    /// Whether a search that has completed the given depth may deepen
    /// further.
    pub fn check_depth(&self, depth: Depth) -> (r: bool)
        ensures
            r == match self.spec_max_depth() {
                Some(max_depth) => depth < max_depth,
                None => true,
            },
    {
        if let Some(max_depth) = self.max_depth {
            depth < max_depth
        } else {
            true
        }
    }

    /// Whether the search must stop now: the wall clock has passed the
    /// limit or the front end has triggered a stop.
    pub fn passed(&self) -> bool {
        if let Some(deadline) = &self.deadline {
            let now = search_clock();
            if instant_le(deadline, &now) {
                return true;
            }
        }
        self.trigger.load(Ordering::Relaxed)
    }

    /// Asks the running search to stop.
    pub fn trigger(&self) {
        self.trigger.store(true, Ordering::Relaxed)
    }
}

} // verus!
