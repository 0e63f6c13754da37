//! An LED pin that exists in software only.

use vstd::prelude::*;
use crate::level::Level;

verus! {

/// Why a toggle did not happen.
#[derive(Clone, Copy, Debug, PartialEq, Eq, Structural)]
pub enum PinFault {
    /// The output does not follow what is written to it.
    Stuck,
}

/// A push-pull output with nothing behind it but its level.
///
/// It stands where no GPIO exists. A stuck one refuses every toggle and
/// keeps its level, which is how a hardware fault looks from the handler.
#[derive(Clone, Copy, Debug, PartialEq, Eq, Structural)]
pub struct SoftwareLed {
    pub level: Level,
    pub stuck: bool,
}

impl SoftwareLed {
    /// The pin after one attempt to toggle it.
    pub open spec fn after_toggle(self) -> SoftwareLed {
        if self.stuck {
            self
        } else {
            SoftwareLed { level: self.level.flipped(), stuck: false }
        }
    }

    /// A working pin that drives `level`.
    pub fn new(level: Level) -> (led: SoftwareLed)
        ensures
            led == (SoftwareLed { level, stuck: false }),
    {
        SoftwareLed { level, stuck: false }
    }

    /// A pin that is stuck at `level`.
    pub fn stuck_at(level: Level) -> (led: SoftwareLed)
        ensures
            led == (SoftwareLed { level, stuck: true }),
    {
        SoftwareLed { level, stuck: true }
    }

    /// The level that the pin drives.
    pub fn level(&self) -> (level: Level)
        ensures
            level == self.level,
    {
        self.level
    }

    /// Flips the level. A stuck pin keeps its level and reports the fault.
    pub fn toggle(&mut self) -> (outcome: Result<(), PinFault>)
        ensures
            *final(self) == old(self).after_toggle(),
            outcome == (if old(self).stuck {
                Err::<(), PinFault>(PinFault::Stuck)
            } else {
                Ok::<(), PinFault>(())
            }),
    {
        if self.stuck {
            Err(PinFault::Stuck)
        } else {
            self.level = self.level.toggled();
            Ok(())
        }
    }
}

} // verus!
