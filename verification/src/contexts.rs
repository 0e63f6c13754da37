//! The main context, the interrupt handler and the interrupt mask, as a
//! state machine.
//!
//! On one core the handler runs only when the interrupt is taken, which
//! happens only while interrupts are not masked, and the main context does
//! not run again before the handler has returned. Both mask interrupts
//! around their access to the shared slot. The machine here takes the steps
//! of the two contexts one at a time, in any order that is offered to it,
//! and refuses those that cannot happen. What it shows is that the
//! handler's toggle never falls between the beginning and the end of an
//! installation.

use vstd::prelude::*;
use crate::critical::CriticalSection;
use crate::handler::{after_interrupt, on_timer_interrupt_software};
use crate::led::SoftwareLed;
use crate::slot::{after_install, SharedSlot};

verus! {

/// Where the main context stands.
#[derive(Clone, Copy, Debug, PartialEq, Eq, Structural)]
pub enum MainPhase {
    /// Outside any critical section: setting up, or idling.
    Outside,
    /// Inside the critical section in which it installs the pin.
    Installing,
}

/// Where the interrupt handler stands.
#[derive(Clone, Copy, Debug, PartialEq, Eq, Structural)]
pub enum HandlerPhase {
    /// Not running: waiting for the timer.
    Idle,
    /// Started by the timer, the slot not yet touched.
    Firing,
    /// Done with the slot, not yet returned.
    Finishing,
}

/// One step of one of the two contexts.
#[derive(Clone, Copy, Debug, PartialEq, Eq, Structural)]
pub enum Event {
    /// The main context masks interrupts and enters its critical section.
    MainEnters,
    /// The main context moves a pin into the slot.
    MainInstalls(SoftwareLed),
    /// The main context leaves its critical section and unmasks interrupts.
    MainLeaves,
    /// The timer's interrupt is taken: the handler starts and masks
    /// interrupts.
    TimerFires,
    /// The handler toggles the pin in the slot, if there is one.
    HandlerToggles,
    /// The handler unmasks interrupts and returns.
    HandlerReturns,
}

/// The state of the machine, as plain values.
#[derive(Clone, Copy, Debug, PartialEq, Eq, Structural)]
pub struct Snapshot {
    pub masked: bool,
    pub main: MainPhase,
    pub handler: HandlerPhase,
    pub slot: Option<SoftwareLed>,
}

impl Snapshot {
    /// Power-on: nothing masked, nothing running, nothing installed.
    pub open spec fn initial() -> Snapshot {
        Snapshot {
            masked: false,
            main: MainPhase::Outside,
            handler: HandlerPhase::Idle,
            slot: None,
        }
    }

    /// Whether `event` can happen in this state.
    pub open spec fn admits(self, event: Event) -> bool {
        match event {
            Event::MainEnters => self.handler == HandlerPhase::Idle && self.main
                == MainPhase::Outside,
            Event::MainInstalls(_) => self.handler == HandlerPhase::Idle && self.main
                == MainPhase::Installing && self.masked,
            Event::MainLeaves => self.handler == HandlerPhase::Idle && self.main
                == MainPhase::Installing,
            Event::TimerFires => self.handler == HandlerPhase::Idle && !self.masked,
            Event::HandlerToggles => self.handler == HandlerPhase::Firing && self.masked,
            Event::HandlerReturns => self.handler == HandlerPhase::Finishing,
        }
    }

    /// The state after `event`; the same state where `event` cannot happen.
    pub open spec fn after(self, event: Event) -> Snapshot {
        if !self.admits(event) {
            self
        } else {
            match event {
                Event::MainEnters => Snapshot {
                    masked: true,
                    main: MainPhase::Installing,
                    ..self
                },
                Event::MainInstalls(led) => Snapshot {
                    slot: after_install(self.slot, led),
                    ..self
                },
                Event::MainLeaves => Snapshot { masked: false, main: MainPhase::Outside, ..self },
                Event::TimerFires => Snapshot {
                    masked: true,
                    handler: HandlerPhase::Firing,
                    ..self
                },
                Event::HandlerToggles => Snapshot {
                    slot: after_interrupt(self.slot),
                    handler: HandlerPhase::Finishing,
                    ..self
                },
                Event::HandlerReturns => Snapshot {
                    masked: false,
                    handler: HandlerPhase::Idle,
                    ..self
                },
            }
        }
    }

    /// The state after the events `events`, offered in order.
    pub open spec fn after_all(self, events: Seq<Event>) -> Snapshot
        decreases events.len(),
    {
        if events.len() == 0 {
            self
        } else {
            self.after_all(events.drop_last()).after(events.last())
        }
    }

    /// Whoever is at work on the slot has interrupts masked, and the two
    /// contexts are never at work at once.
    pub open spec fn exclusive(self) -> bool {
        &&& self.main == MainPhase::Installing ==> self.masked && self.handler
            == HandlerPhase::Idle
        &&& self.handler != HandlerPhase::Idle ==> self.masked
    }
}

/// The machine itself: it holds the shared slot and makes every access to
/// it with a token got from its own interrupt mask.
pub struct Contexts {
    masked: bool,
    main: MainPhase,
    handler: HandlerPhase,
    slot: SharedSlot<SoftwareLed>,
}

impl Contexts {
    /// The state of the machine.
    pub closed spec fn view(&self) -> Snapshot {
        Snapshot { masked: self.masked, main: self.main, handler: self.handler, slot: self.slot@ }
    }

    /// The machine at power-on.
    pub fn new() -> (contexts: Contexts)
        ensures
            contexts@ == Snapshot::initial(),
    {
        Contexts {
            masked: false,
            main: MainPhase::Outside,
            handler: HandlerPhase::Idle,
            slot: SharedSlot::new(),
        }
    }

    /// Whether interrupts are masked.
    pub fn is_masked(&self) -> (masked: bool)
        ensures
            masked == self@.masked,
    {
        self.masked
    }

    /// Where the main context stands.
    pub fn main_phase(&self) -> (phase: MainPhase)
        ensures
            phase == self@.main,
    {
        self.main
    }

    /// Where the interrupt handler stands.
    pub fn handler_phase(&self) -> (phase: HandlerPhase)
        ensures
            phase == self@.handler,
    {
        self.handler
    }

    /// Ends the run and hands the slot out.
    pub fn into_slot(self) -> (slot: SharedSlot<SoftwareLed>)
        ensures
            slot@ == self@.slot,
    {
        self.slot
    }

    /// Offers `event` to the machine. It takes the step and says `true`
    /// where the event can happen, and stays as it is and says `false`
    /// where it cannot.
    pub fn step(&mut self, event: Event) -> (admitted: bool)
        ensures
            admitted == old(self)@.admits(event),
            final(self)@ == old(self)@.after(event),
    {
        match event {
            Event::MainEnters => {
                if self.handler == HandlerPhase::Idle && self.main == MainPhase::Outside {
                    self.masked = true;
                    self.main = MainPhase::Installing;
                    true
                } else {
                    false
                }
            },
            Event::MainInstalls(led) => {
                if self.handler == HandlerPhase::Idle && self.main == MainPhase::Installing {
                    match CriticalSection::enter(self.masked) {
                        Some(cs) => {
                            self.slot.install(&cs, led);
                            true
                        },
                        None => false,
                    }
                } else {
                    false
                }
            },
            Event::MainLeaves => {
                if self.handler == HandlerPhase::Idle && self.main == MainPhase::Installing {
                    self.main = MainPhase::Outside;
                    self.masked = false;
                    true
                } else {
                    false
                }
            },
            Event::TimerFires => {
                if self.handler == HandlerPhase::Idle && !self.masked {
                    self.masked = true;
                    self.handler = HandlerPhase::Firing;
                    true
                } else {
                    false
                }
            },
            Event::HandlerToggles => {
                if self.handler == HandlerPhase::Firing {
                    match CriticalSection::enter(self.masked) {
                        Some(cs) => {
                            on_timer_interrupt_software(&mut self.slot, &cs);
                            self.handler = HandlerPhase::Finishing;
                            true
                        },
                        None => false,
                    }
                } else {
                    false
                }
            },
            Event::HandlerReturns => {
                if self.handler == HandlerPhase::Finishing {
                    self.handler = HandlerPhase::Idle;
                    self.masked = false;
                    true
                } else {
                    false
                }
            },
        }
    }
}

/// No step leads out of the states in which the contexts exclude each
/// other.
pub proof fn lemma_step_keeps_exclusive(state: Snapshot, event: Event)
    requires
        state.exclusive(),
    ensures
        state.after(event).exclusive(),
{
}

/// Whatever events are offered from power-on, and in whatever order: while
/// the main context is installing, interrupts are masked, the handler is
/// not running, and neither the timer's interrupt nor the handler's toggle
/// can happen.
pub proof fn lemma_no_toggle_during_install(events: Seq<Event>)
    ensures
        Snapshot::initial().after_all(events).exclusive(),
        Snapshot::initial().after_all(events).main == MainPhase::Installing ==> {
            &&& !Snapshot::initial().after_all(events).admits(Event::TimerFires)
            &&& !Snapshot::initial().after_all(events).admits(Event::HandlerToggles)
        },
    decreases events.len(),
{
    if events.len() > 0 {
        lemma_no_toggle_during_install(events.drop_last());
        lemma_step_keeps_exclusive(
            Snapshot::initial().after_all(events.drop_last()),
            events.last(),
        );
    }
}

} // verus!
