//! The periodic countdown timer: how it is configured, and when it fires.

use vstd::prelude::*;
use vstd::arithmetic::div_mod::{lemma_fundamental_div_mod, lemma_fundamental_div_mod_converse};

verus! {

/// Frequency of the board's external crystal, in hertz.
pub const XTAL_FREQ_HZ: u32 = 12_000_000;

/// Ticks of the timer's counting clock in one second: a tick is a
/// microsecond.
pub const TICKS_PER_SECOND: u32 = 1_000_000;

/// Ticks between two toggles of the LED: one second.
pub const TOGGLE_PERIOD_TICKS: u32 = 1_000_000;

/// The reload value with which the timer's period is `period_ticks`: one
/// less, since the tick on which the counter is loaded anew counts too.
pub fn reload_for_period(period_ticks: u32) -> (reload: u32)
    requires
        period_ticks >= 1,
    ensures
        reload == period_ticks - 1,
{
    period_ticks - 1
}

/// One write to the timer's registers.
#[derive(Clone, Copy, Debug, PartialEq, Eq, Structural)]
pub enum TimerStep {
    /// Stop counting.
    DisableCounter,
    /// Set the current value to zero.
    ClearCurrent,
    /// Set the value from which the counter starts again.
    SetReload(u32),
    /// Raise the interrupt whenever the counter comes to zero.
    EnableInterrupt,
    /// Start counting.
    EnableCounter,
}

/// The writes that configure the timer for a period of `period_ticks`, in
/// the order in which they are made.
pub open spec fn configuration(period_ticks: u32) -> Seq<TimerStep> {
    seq![
        TimerStep::DisableCounter,
        TimerStep::ClearCurrent,
        TimerStep::SetReload((period_ticks - 1) as u32),
        TimerStep::EnableInterrupt,
        TimerStep::EnableCounter,
    ]
}

/// The writes that configure the timer for a period of `period_ticks`, for
/// the caller to make one after the other on the hardware.
pub fn configuration_steps(period_ticks: u32) -> (steps: [TimerStep; 5])
    requires
        period_ticks >= 1,
    ensures
        steps@ == configuration(period_ticks),
{
    let steps = [
        TimerStep::DisableCounter,
        TimerStep::ClearCurrent,
        TimerStep::SetReload(reload_for_period(period_ticks)),
        TimerStep::EnableInterrupt,
        TimerStep::EnableCounter,
    ];
    assert(steps@ =~= configuration(period_ticks));
    steps
}

/// The registers of a countdown timer.
///
/// While it counts, each tick takes the current value down by one; from
/// zero it starts again at the reload value. It fires on the tick that
/// takes it from one to zero.
#[derive(Clone, Copy, Debug, PartialEq, Eq, Structural)]
pub struct TimerRegisters {
    pub counter_enabled: bool,
    pub interrupt_enabled: bool,
    pub reload: u32,
    pub current: u32,
}

impl TimerRegisters {
    /// The registers after one write.
    pub open spec fn after_step(self, step: TimerStep) -> TimerRegisters {
        match step {
            TimerStep::DisableCounter => TimerRegisters { counter_enabled: false, ..self },
            TimerStep::ClearCurrent => TimerRegisters { current: 0, ..self },
            TimerStep::SetReload(reload) => TimerRegisters { reload, ..self },
            TimerStep::EnableInterrupt => TimerRegisters { interrupt_enabled: true, ..self },
            TimerStep::EnableCounter => TimerRegisters { counter_enabled: true, ..self },
        }
    }

    /// The registers after the writes `steps`, made in order.
    pub open spec fn after_steps(self, steps: Seq<TimerStep>) -> TimerRegisters
        decreases steps.len(),
    {
        if steps.len() == 0 {
            self
        } else {
            self.after_steps(steps.drop_last()).after_step(steps.last())
        }
    }

    /// The registers of a timer that has just been configured for a period
    /// of `period_ticks`.
    pub open spec fn configured(period_ticks: u32) -> TimerRegisters {
        TimerRegisters {
            counter_enabled: true,
            interrupt_enabled: true,
            reload: (period_ticks - 1) as u32,
            current: 0,
        }
    }

    /// Whether the next tick raises the interrupt.
    pub open spec fn fires(self) -> bool {
        self.counter_enabled && self.interrupt_enabled && self.current == 1
    }

    /// The registers after the next tick.
    pub open spec fn ticked(self) -> TimerRegisters {
        if !self.counter_enabled {
            self
        } else if self.current == 0 {
            TimerRegisters { current: self.reload, ..self }
        } else {
            TimerRegisters { current: (self.current - 1) as u32, ..self }
        }
    }

    /// The registers after the next `n` ticks.
    pub open spec fn after_ticks(self, n: nat) -> TimerRegisters
        decreases n,
    {
        if n == 0 {
            self
        } else {
            self.after_ticks((n - 1) as nat).ticked()
        }
    }

    /// How many of the next `n` ticks raise the interrupt.
    pub open spec fn firings(self, n: nat) -> nat
        decreases n,
    {
        if n == 0 {
            0
        } else {
            self.firings((n - 1) as nat) + if self.after_ticks((n - 1) as nat).fires() {
                1nat
            } else {
                0nat
            }
        }
    }

    /// Makes one write.
    pub fn apply(&mut self, step: TimerStep)
        ensures
            *final(self) == old(self).after_step(step),
    {
        match step {
            TimerStep::DisableCounter => {
                self.counter_enabled = false;
            },
            TimerStep::ClearCurrent => {
                self.current = 0;
            },
            TimerStep::SetReload(reload) => {
                self.reload = reload;
            },
            TimerStep::EnableInterrupt => {
                self.interrupt_enabled = true;
            },
            TimerStep::EnableCounter => {
                self.counter_enabled = true;
            },
        }
    }

    /// Lets one tick pass, and says whether it raised the interrupt.
    pub fn tick(&mut self) -> (fired: bool)
        ensures
            fired == old(self).fires(),
            *final(self) == old(self).ticked(),
    {
        if !self.counter_enabled {
            false
        } else if self.current == 0 {
            self.current = self.reload;
            false
        } else {
            self.current = self.current - 1;
            self.interrupt_enabled && self.current == 0
        }
    }
}

/// Whatever the registers held before, the writes of the configuration
/// leave the timer counting from zero, with the interrupt enabled and a
/// reload value of one less than the period.
pub proof fn lemma_configuration_result(before: TimerRegisters, period_ticks: u32)
    requires
        period_ticks >= 1,
    ensures
        before.after_steps(configuration(period_ticks)) == TimerRegisters::configured(
            period_ticks,
        ),
{
    let steps = configuration(period_ticks);
    let s4 = steps.drop_last();
    let s3 = s4.drop_last();
    let s2 = s3.drop_last();
    let s1 = s2.drop_last();
    let s0 = s1.drop_last();
    assert(s0.len() == 0);
    assert(before.after_steps(s0) == before);
    assert(before.after_steps(s1) == before.after_steps(s0).after_step(s1.last()));
    assert(before.after_steps(s2) == before.after_steps(s1).after_step(s2.last()));
    assert(before.after_steps(s3) == before.after_steps(s2).after_step(s3.last()));
    assert(before.after_steps(s4) == before.after_steps(s3).after_step(s4.last()));
    assert(before.after_steps(steps) == before.after_steps(s4).after_step(steps.last()));
}

/// Where `n` stands in its period, one tick on from `n - 1`.
proof fn lemma_next_in_period(n: nat, period: nat)
    requires
        n >= 1,
        period >= 1,
    ensures
        n % period == 0 ==> (n - 1) % (period as int) == period - 1 && (n - 1) / (period as int)
            == n / period - 1,
        n % period != 0 ==> (n - 1) % (period as int) == n % period - 1 && (n - 1) / (
        period as int) == n / period,
{
    let p = period as int;
    let m = n as int;
    lemma_fundamental_div_mod(m, p);
    if m % p == 0 {
        assert(m - 1 == p * (m / p - 1) + (p - 1)) by (nonlinear_arith)
            requires
                m == p * (m / p) + m % p,
                m % p == 0,
        ;
        lemma_fundamental_div_mod_converse(m - 1, p, m / p - 1, p - 1);
    } else {
        lemma_fundamental_div_mod_converse(m - 1, p, m / p, m % p - 1);
    }
}

/// A timer configured for a period of `period_ticks` fires on every
/// `period_ticks`-th tick and on no other, for as long as it runs: of its
/// first `n` ticks, `n / period_ticks` raise the interrupt, and the
/// configuration stands throughout.
///
/// A period of one tick cannot be had: with a reload value of zero the
/// counter never counts from one to zero.
pub proof fn lemma_fires_every_period(period_ticks: u32, n: nat)
    requires
        period_ticks >= 2,
    ensures
        TimerRegisters::configured(period_ticks).firings(n) == n / (period_ticks as nat),
        TimerRegisters::configured(period_ticks).after_ticks(n) == (TimerRegisters {
            current: if n % (period_ticks as nat) == 0 {
                0u32
            } else {
                (period_ticks - n % (period_ticks as nat)) as u32
            },
            ..TimerRegisters::configured(period_ticks)
        }),
    decreases n,
{
    if n > 0 {
        lemma_fires_every_period(period_ticks, (n - 1) as nat);
        lemma_next_in_period(n, period_ticks as nat);
    }
}

} // verus!
