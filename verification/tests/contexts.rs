use systick_blink::contexts::{Contexts, Event, HandlerPhase, MainPhase};
use systick_blink::critical::CriticalSection;
use systick_blink::led::SoftwareLed;
use systick_blink::level::Level;

fn level_at_end(contexts: Contexts) -> Option<Level> {
    let cs = CriticalSection::enter(true).expect("interrupts are masked");
    let mut slot = contexts.into_slot();
    slot.with_exclusive_access(&cs, |led: &mut SoftwareLed| led.level())
}

fn handle_interrupt(contexts: &mut Contexts) -> bool {
    contexts.step(Event::TimerFires)
        && contexts.step(Event::HandlerToggles)
        && contexts.step(Event::HandlerReturns)
}

#[test]
fn power_on_state() {
    let contexts = Contexts::new();
    assert!(!contexts.is_masked());
    assert_eq!(contexts.main_phase(), MainPhase::Outside);
    assert_eq!(contexts.handler_phase(), HandlerPhase::Idle);
    assert_eq!(level_at_end(contexts), None);
}

#[test]
fn timer_cannot_fire_during_installation() {
    let mut contexts = Contexts::new();
    assert!(contexts.step(Event::MainEnters));
    assert!(contexts.is_masked());
    assert_eq!(contexts.main_phase(), MainPhase::Installing);

    assert!(!contexts.step(Event::TimerFires));
    assert!(!contexts.step(Event::HandlerToggles));
    assert_eq!(contexts.handler_phase(), HandlerPhase::Idle);

    assert!(contexts.step(Event::MainInstalls(SoftwareLed::new(Level::Low))));
    assert!(!contexts.step(Event::TimerFires));
    assert!(!contexts.step(Event::HandlerToggles));

    assert!(contexts.step(Event::MainLeaves));
    assert!(!contexts.is_masked());
    assert_eq!(contexts.main_phase(), MainPhase::Outside);

    assert!(handle_interrupt(&mut contexts));
    assert_eq!(level_at_end(contexts), Some(Level::High));
}

#[test]
fn main_cannot_install_while_the_handler_runs() {
    let mut contexts = Contexts::new();
    assert!(contexts.step(Event::TimerFires));
    assert!(contexts.is_masked());
    assert_eq!(contexts.handler_phase(), HandlerPhase::Firing);

    assert!(!contexts.step(Event::MainEnters));
    assert!(!contexts.step(Event::MainInstalls(SoftwareLed::new(Level::Low))));
    assert!(!contexts.step(Event::TimerFires));

    assert!(contexts.step(Event::HandlerToggles));
    assert_eq!(contexts.handler_phase(), HandlerPhase::Finishing);
    assert!(!contexts.step(Event::HandlerToggles));
    assert!(!contexts.step(Event::MainEnters));

    assert!(contexts.step(Event::HandlerReturns));
    assert!(!contexts.is_masked());
    assert_eq!(contexts.handler_phase(), HandlerPhase::Idle);
    assert_eq!(level_at_end(contexts), None);
}

#[test]
fn installing_needs_the_critical_section() {
    let mut contexts = Contexts::new();
    assert!(!contexts.step(Event::MainInstalls(SoftwareLed::new(Level::Low))));
    assert!(!contexts.step(Event::MainLeaves));
    assert!(!contexts.step(Event::HandlerToggles));
    assert!(!contexts.step(Event::HandlerReturns));
    assert_eq!(level_at_end(contexts), None);
}

#[test]
fn early_interrupts_then_install_then_blink() {
    let mut contexts = Contexts::new();
    assert!(handle_interrupt(&mut contexts));
    assert!(handle_interrupt(&mut contexts));

    assert!(contexts.step(Event::MainEnters));
    assert!(contexts.step(Event::MainInstalls(SoftwareLed::new(Level::Low))));
    assert!(contexts.step(Event::MainLeaves));

    for _ in 0..5 {
        assert!(handle_interrupt(&mut contexts));
    }
    assert_eq!(level_at_end(contexts), Some(Level::High));
}

#[test]
fn refused_events_change_nothing() {
    let events = [
        Event::MainEnters,
        Event::MainInstalls(SoftwareLed::new(Level::High)),
        Event::MainLeaves,
        Event::TimerFires,
        Event::HandlerToggles,
        Event::HandlerReturns,
    ];
    // Every order of three events from power-on: at no point are both
    // contexts at work, and whoever is at work has interrupts masked.
    for first in events {
        for second in events {
            for third in events {
                let mut contexts = Contexts::new();
                for event in [first, second, third] {
                    let masked = contexts.is_masked();
                    let main = contexts.main_phase();
                    let handler = contexts.handler_phase();
                    if !contexts.step(event) {
                        assert_eq!(contexts.is_masked(), masked);
                        assert_eq!(contexts.main_phase(), main);
                        assert_eq!(contexts.handler_phase(), handler);
                    }
                    let installing = contexts.main_phase() == MainPhase::Installing;
                    let handling = contexts.handler_phase() != HandlerPhase::Idle;
                    assert!(!(installing && handling));
                    assert!(!(installing || handling) || contexts.is_masked());
                }
            }
        }
    }
}
