//! Blinking an LED from a periodic timer interrupt.
//!
//! The firmware around this library has two execution contexts: the main
//! context, which sets the hardware up once and then idles, and the timer's
//! interrupt handler, which flips the LED pin on every firing. The library
//! holds what the two share and decide:
//!
//! * [`slot`]: the one place through which the LED pin's handle passes from
//!   the main context to the handler, reachable only with a
//!   [`critical::CriticalSection`] token;
//! * [`handler`]: what the handler does on a firing;
//! * [`timer`]: the countdown timer's configuration, and a model of its
//!   registers that says when it fires;
//! * [`led`] and [`level`]: a pin that exists in software only, for running
//!   all of this where there is no GPIO;
//! * [`contexts`]: the two contexts and the interrupt mask as a state machine.

pub mod contexts;
pub mod critical;
pub mod handler;
pub mod led;
pub mod level;
pub mod slot;
pub mod timer;
