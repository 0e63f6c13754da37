//! The token that stands for "interrupts are masked".

use vstd::prelude::*;

verus! {

/// Evidence that the code holding it runs with interrupts masked, so that
/// nothing can preempt it on a single core.
///
/// The shared slot hands its contents out only against a reference to such
/// a token. There is one way to get one, [`CriticalSection::enter`].
pub struct CriticalSection {
    _private: (),
}

impl CriticalSection {
    /// Turns the interrupt mask, as the caller has just read it from the
    /// machine, into a token: there is one exactly when interrupts are
    /// masked.
    pub fn enter(interrupts_masked: bool) -> (token: Option<CriticalSection>)
        ensures
            token is Some <==> interrupts_masked,
    {
        if interrupts_masked {
            Some(CriticalSection { _private: () })
        } else {
            None
        }
    }
}

} // verus!
