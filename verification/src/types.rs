//! Event tags and priorities shared by the engine and its callers.

use vstd::prelude::*;

verus! {

/// Animation event categories used to tag transitions and resolve conflicts.
#[derive(Debug, Clone, PartialEq, Eq, Hash)]
pub enum AnimEvent {
    /// No interaction event (declarative transitions and returns to the origin).
    NoEvent,
    Hover,
    Click,
    /// User-defined event tags.
    Custom(String),
}

/// Priority for resolving competing animations.
///
/// The levels are ordered `Lowest < Low < Medium < High < Realtime`; their
/// numeric levels are 0, 25, 50, 75 and 100.
#[derive(Debug, Clone, Copy, PartialEq, Eq, Structural, PartialOrd, Ord)]
pub enum AnimPriority {
    Lowest,
    Low,
    Medium,
    High,
    Realtime,
}

impl AnimPriority {
    /// Numeric level of a priority.
    pub open spec fn rank(self) -> nat {
        match self {
            AnimPriority::Lowest => 0,
            AnimPriority::Low => 25,
            AnimPriority::Medium => 50,
            AnimPriority::High => 75,
            AnimPriority::Realtime => 100,
        }
    }

    /// The larger of two priorities (by level).
    pub open spec fn spec_max(self, other: AnimPriority) -> AnimPriority {
        if other.rank() >= self.rank() { other } else { self }
    }

    /// Numeric level of this priority.
    pub fn level(&self) -> (r: u8)
        ensures
            r as nat == self.rank(),
    {
        match self {
            AnimPriority::Lowest => 0,
            AnimPriority::Low => 25,
            AnimPriority::Medium => 50,
            AnimPriority::High => 75,
            AnimPriority::Realtime => 100,
        }
    }

    /// The larger of `self` and `other`; on equal levels `other` is returned,
    /// as `Ord::max` does.
    pub fn max(self, other: AnimPriority) -> (r: AnimPriority)
        ensures
            r == self.spec_max(other),
    {
        if other.level() >= self.level() {
            other
        } else {
            self
        }
    }
}

impl Default for AnimPriority {
    fn default() -> (r: Self)
        ensures
            r == AnimPriority::Lowest,
    {
        AnimPriority::Lowest
    }
}

} // verus!
