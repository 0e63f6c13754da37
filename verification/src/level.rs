//! The logic level of a push-pull output.

use vstd::prelude::*;

verus! {

/// One of the two levels that a push-pull output drives.
#[derive(Clone, Copy, Debug, PartialEq, Eq, Structural)]
pub enum Level {
    Low,
    High,
}

impl Level {
    /// The other level.
    pub open spec fn flipped(self) -> Level {
        match self {
            Level::Low => Level::High,
            Level::High => Level::Low,
        }
    }

    /// The level that `n` toggles lead to: the other one when `n` is odd,
    /// the same one when it is even.
    pub open spec fn after_toggles(self, n: nat) -> Level {
        if n % 2 == 1 {
            self.flipped()
        } else {
            self
        }
    }

    /// The other level.
    pub fn toggled(self) -> (other: Level)
        ensures
            other == self.flipped(),
    {
        match self {
            Level::Low => Level::High,
            Level::High => Level::Low,
        }
    }

    /// Whether the output is driven high.
    pub fn is_high(self) -> (high: bool)
        ensures
            high == (self == Level::High),
    {
        match self {
            Level::Low => false,
            Level::High => true,
        }
    }
}

} // verus!
