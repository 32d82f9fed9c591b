//! Per-tick snapshot of the four directional input flags.

use vstd::prelude::*;

verus! {

/// The four directional input flags, sampled once per tick by the input
/// collector and read (never written) by the core.
#[derive(Clone, Copy, PartialEq, Eq, Structural, Debug)]
pub struct Controls {
    pub up: bool,
    pub down: bool,
    pub left: bool,
    pub right: bool,
}

impl Controls {
    /// A snapshot with no key held.
    pub fn none() -> (r: Controls)
        ensures
            !r.up && !r.down && !r.left && !r.right,
    {
        Controls { up: false, down: false, left: false, right: false }
    }
}

} // verus!
