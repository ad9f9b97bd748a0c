//! LFO control window

use vstd::prelude::*;

verus! {

/// LFO control window; it keeps no state of its own.
#[derive(Debug, Clone, Copy, PartialEq, Eq, Structural)]
pub struct LfoWindow;

impl LfoWindow {
    pub fn new() -> (w: Self)
        ensures
            w == LfoWindow,
    {
        LfoWindow
    }
}

} // verus!
