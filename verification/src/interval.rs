//! The window of admissible intersection distances.
//!
//! An intersection search accepts a parametric distance only when it lies
//! inside a window `[min, max]`.  Distances arrive as order keys (see the
//! crate root): the window logic reads nothing of a distance but how it
//! compares to the bounds, so the contracts below are exact statements of
//! the search-window behaviour.

use vstd::prelude::*;

verus! {

/// A closed range `[min, max]` of order keys bounding the admissible
/// parametric distances of an intersection search.  `min > max` makes the
/// window empty.
#[derive(Clone, Copy, Debug)]
pub struct Interval {
    min: u64,
    max: u64,
}

impl Interval {
    /// The lower bound of the window.
    pub closed spec fn spec_min(self) -> u64 {
        self.min
    }

    /// The upper bound of the window.
    pub closed spec fn spec_max(self) -> u64 {
        self.max
    }

    /// Membership with both endpoints included.
    pub open spec fn spec_contains(self, key: u64) -> bool {
        self.spec_min() <= key <= self.spec_max()
    }

    /// Membership with both endpoints excluded.  The intersection search
    /// admits a distance only under this strict test: excluding the lower
    /// endpoint rejects the surface a ray originates on, and the upper
    /// endpoint is likewise left out.
    pub open spec fn spec_surrounds(self, key: u64) -> bool {
        self.spec_min() < key < self.spec_max()
    }

    pub fn new(min: u64, max: u64) -> (r: Self)
        ensures
            r.spec_min() == min,
            r.spec_max() == max,
    {
        Interval { min, max }
    }

    /// The window that contains no key at all.
    pub fn empty() -> (r: Self)
        ensures
            forall|key: u64| !r.spec_contains(key),
            forall|key: u64| !r.spec_surrounds(key),
    {
        Interval { min: u64::MAX, max: 0 }
    }

    /// The window that contains every key.
    pub fn universe() -> (r: Self)
        ensures
            forall|key: u64| r.spec_contains(key),
    {
        Interval { min: 0, max: u64::MAX }
    }

    pub fn min(&self) -> (r: u64)
        ensures
            r == self.spec_min(),
    {
        self.min
    }

    pub fn max(&self) -> (r: u64)
        ensures
            r == self.spec_max(),
    {
        self.max
    }

    /// Closed containment test.
    pub fn contains(&self, key: u64) -> (r: bool)
        ensures
            r == self.spec_contains(key),
    {
        self.min <= key && key <= self.max
    }

    /// Strictly open containment test; see [`Interval::spec_surrounds`].
    pub fn surrounds(&self, key: u64) -> (r: bool)
        ensures
            r == self.spec_surrounds(key),
    {
        self.min < key && key < self.max
    }

    /// Saturate a key into the window.  Meaningful only for a nonempty
    /// window, where the result is the nearest key of the window.
    pub fn clamp(&self, key: u64) -> (r: u64)
        requires
            self.spec_min() <= self.spec_max(),
        ensures
            self.spec_contains(r),
            self.spec_contains(key) ==> r == key,
            key < self.spec_min() ==> r == self.spec_min(),
            key > self.spec_max() ==> r == self.spec_max(),
    {
        if key < self.min {
            self.min
        } else if key > self.max {
            self.max
        } else {
            key
        }
    }
}

} // verus!
