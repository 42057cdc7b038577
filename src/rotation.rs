//! Screen orientation.

use vstd::prelude::*;

verus! {

/// One of the four fixed screen orientations.
#[derive(Debug, Clone, Copy, PartialEq, Eq, Structural)]
pub enum DisplayRotation {
    Rotate0,
    Rotate90,
    Rotate180,
    Rotate270,
}

impl DisplayRotation {
    /// Whether the logical axes are exchanged with the native ones.
    pub open spec fn swaps_axes(self) -> bool {
        self is Rotate90 || self is Rotate270
    }
}

impl Default for DisplayRotation {
    fn default() -> (r: Self)
        ensures
            r == DisplayRotation::Rotate0,
    {
        DisplayRotation::Rotate0
    }
}

} // verus!
