//! What the timer's interrupt handler does on each firing.

use vstd::prelude::*;
use crate::critical::CriticalSection;
use crate::led::SoftwareLed;
use crate::slot::{after_install, SharedSlot};

verus! {

/// One firing of the timer: toggles the pin in the slot, if there is one.
///
/// `toggle` is the pin's own toggle operation. Whether it succeeded is of no
/// consequence here: a toggle that failed leaves the LED as it was for one
/// period more, and nothing could be done about it from interrupt context
/// anyway. So the outcome is dropped, for all to see, and nothing is ever
/// reported to the caller. An empty slot is left alone.
pub fn on_timer_interrupt<H, E, F: FnOnce(&mut H) -> Result<(), E>>(
    slot: &mut SharedSlot<H>,
    cs: &CriticalSection,
    toggle: F,
)
    requires
        old(slot)@ is Some ==> forall|h: &mut H|
            *h == old(slot)@->0 ==> call_requires(toggle, (h,)),
    ensures
        old(slot)@ is None ==> final(slot)@ is None,
        old(slot)@ is Some ==> final(slot)@ is Some && exists|
            h: &mut H,
            outcome: Result<(), E>,
        |
            *h == old(slot)@->0 && *final(h) == final(slot)@->0 && call_ensures(
                toggle,
                (h,),
                outcome,
            ),
{
    match slot.with_exclusive_access(cs, toggle) {
        Some(Ok(())) => {},
        Some(Err(_fault)) => {},
        None => {},
    }
}

/// The slot's contents after one firing, where the pin is a software one.
pub open spec fn after_interrupt(slot: Option<SoftwareLed>) -> Option<SoftwareLed> {
    match slot {
        Some(led) => Some(led.after_toggle()),
        None => None,
    }
}

/// The slot's contents after `n` firings in a row.
pub open spec fn after_interrupts(slot: Option<SoftwareLed>, n: nat) -> Option<SoftwareLed>
    decreases n,
{
    if n == 0 {
        slot
    } else {
        after_interrupt(after_interrupts(slot, (n - 1) as nat))
    }
}

/// One firing of the timer with a software pin in the slot.
pub fn on_timer_interrupt_software(slot: &mut SharedSlot<SoftwareLed>, cs: &CriticalSection)
    ensures
        final(slot)@ == after_interrupt(old(slot)@),
{
    on_timer_interrupt(slot, cs, SoftwareLed::toggle);
}

/// A working pin that is installed before the first of `n` firings drives,
/// after the last of them, the level it started from if `n` is even and the
/// other one if `n` is odd. What the slot held before the installation is of
/// no account.
pub proof fn lemma_level_after_interrupts(before: Option<SoftwareLed>, led: SoftwareLed, n: nat)
    requires
        !led.stuck,
    ensures
        after_interrupts(after_install(before, led), n) == Some(
            SoftwareLed { level: led.level.after_toggles(n), stuck: false },
        ),
    decreases n,
{
    if n > 0 {
        lemma_level_after_interrupts(before, led, (n - 1) as nat);
    }
}

/// However often the timer fires on an empty slot, the slot stays empty.
/// The first firing after a pin has been installed toggles that pin, and
/// the `n` firings after the installation do to it what they would have done
/// had there been none before.
pub proof fn lemma_interrupts_before_install(early: nat, led: SoftwareLed, n: nat)
    ensures
        after_interrupts(None, early) == None::<SoftwareLed>,
        after_interrupt(after_install(after_interrupts(None, early), led)) == Some(
            led.after_toggle(),
        ),
        after_interrupts(after_install(after_interrupts(None, early), led), n) == after_interrupts(
            Some(led),
            n,
        ),
    decreases early,
{
    if early > 0 {
        lemma_interrupts_before_install((early - 1) as nat, led, n);
    }
}

/// A second installation replaces the first: what the firings that follow
/// do depends on the second pin alone, and where that pin works they toggle
/// it and nothing else.
pub proof fn lemma_second_install_replaces(
    before: Option<SoftwareLed>,
    first: SoftwareLed,
    second: SoftwareLed,
    n: nat,
)
    ensures
        after_install(after_install(before, first), second) == Some(second),
        !second.stuck ==> after_interrupts(
            after_install(after_install(before, first), second),
            n,
        ) == Some(SoftwareLed { level: second.level.after_toggles(n), stuck: false }),
{
    if !second.stuck {
        lemma_level_after_interrupts(after_install(before, first), second, n);
    }
}

/// A stuck pin keeps its level through any number of firings: each failed
/// toggle is dropped and the next firing is handled like any other.
pub proof fn lemma_stuck_pin_keeps_level(led: SoftwareLed, n: nat)
    requires
        led.stuck,
    ensures
        after_interrupts(Some(led), n) == Some(led),
    decreases n,
{
    if n > 0 {
        lemma_stuck_pin_keeps_level(led, (n - 1) as nat);
    }
}

} // verus!
