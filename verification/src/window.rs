//! Half-open index ranges.

use vstd::prelude::*;

verus! {

/// The indices `start, start + 1, .., end - 1` of some sequence.
#[derive(Clone, Copy, Debug, PartialEq, Eq, Structural)]
pub struct Window {
    pub start: usize,
    pub end: usize,
}

impl Window {
    /// Number of indices in the window; none where the bounds are out of
    /// order.
    pub open spec fn len(self) -> nat {
        if self.start <= self.end {
            (self.end - self.start) as nat
        } else {
            0
        }
    }

    /// Whether the window lies inside a sequence of `n` elements.
    pub open spec fn fits(self, n: int) -> bool {
        self.start <= self.end <= n
    }

    /// Number of indices in the window.
    pub fn width(&self) -> (n: usize)
        ensures
            n == self.len(),
    {
        if self.start <= self.end {
            self.end - self.start
        } else {
            0
        }
    }
}

} // verus!
