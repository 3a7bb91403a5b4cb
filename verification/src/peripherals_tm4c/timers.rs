//! The two timers of the LC-3 on the TM4C launchpad.
//!
//! Timer `T0` is `TIMER0` and timer `T1` is `TIMER1`, each counting at the
//! 80 MHz bus clock, so a period of `n` milliseconds reloads the counter with
//! `n * 80000`. A timeout is latched by the timer's interrupt handler and
//! stays latched until the LC-3 registers its flags again.
use vstd::prelude::*;
use crate::lc3_peripherals::{timer_index, TimerId, TimerMode, TimerState, NUM_TIMERS};

verus! {

/// Bus clock ticks in one millisecond.
pub const TICKS_PER_MILLI: u32 = 80000;

/// The bus clock frequency the timers count at.
pub const BUS_CLOCK_HZ: u32 = 80_000_000;

/// The counter reload value for a period of `period` milliseconds.
pub fn reload_value(period: u16) -> (r: u32)
    requires
        period * TICKS_PER_MILLI <= u32::MAX,
    ensures
        r == period * TICKS_PER_MILLI,
        r == period as int * 80000,
{
    let per: u32 = period as u32;
    per * TICKS_PER_MILLI
}

/// The mode register value that makes a timer fire once or repeatedly.
pub fn tamr_value(mode: TimerMode) -> (r: u32)
    ensures
        r == match mode {
            TimerMode::SingleShot => 1u32,
            TimerMode::Repeated => 2u32,
        },
{
    match mode {
        TimerMode::SingleShot => 1,
        TimerMode::Repeated => 2,
    }
}

/// The timers' states, periods, modes, interrupt flags and the bus clock
/// frequency, with the timeouts latched by the interrupt handlers.
pub struct TimersShim {
    pub states: [TimerState; NUM_TIMERS],
    pub times: [u16; NUM_TIMERS],
    pub modes: [TimerMode; NUM_TIMERS],
    pub flags: [Option<bool>; NUM_TIMERS],
    pub clock_freq: u32,
    pub fired: [bool; NUM_TIMERS],
}

impl TimersShim {
    /// The state of `timer`.
    pub open spec fn state(&self, timer: TimerId) -> TimerState {
        self.states@[timer_index(timer)]
    }

    /// Whether a timeout of `timer` is latched.
    pub open spec fn has_fired(&self, timer: TimerId) -> bool {
        self.fired@[timer_index(timer)]
    }

    /// Whether `s` is the state of freshly set up timers counting at
    /// `clock_freq`.
    pub open spec fn is_fresh(s: TimersShim, clock_freq: u32) -> bool {
        &&& forall|i: int| 0 <= i < 2 ==> s.states@[i] == TimerState::Disabled
        &&& forall|i: int| 0 <= i < 2 ==> s.modes@[i] == TimerMode::SingleShot
        &&& forall|i: int| 0 <= i < 2 ==> s.times@[i] == 0
        &&& forall|i: int| 0 <= i < 2 ==> s.flags@[i] is None
        &&& forall|i: int| 0 <= i < 2 ==> !s.fired@[i]
        &&& s.clock_freq == clock_freq
    }

    /// Both timers disabled and single-shot, nothing latched, counting at
    /// the measured system clock `clock_freq`.
    pub fn default(clock_freq: u32) -> (r: TimersShim)
        ensures
            Self::is_fresh(r, clock_freq),
    {
        TimersShim {
            states: [TimerState::Disabled; NUM_TIMERS],
            times: [0u16; NUM_TIMERS],
            modes: [TimerMode::SingleShot, TimerMode::SingleShot],
            flags: [None; NUM_TIMERS],
            clock_freq: clock_freq,
            fired: [false; NUM_TIMERS],
        }
    }

    /// Both timers disabled and single-shot, nothing latched, counting at
    /// the bus clock.
    pub fn new() -> (r: TimersShim)
        ensures
            Self::is_fresh(r, BUS_CLOCK_HZ),
    {
        Self::default(BUS_CLOCK_HZ)
    }

    /// Asks for `timer` to fire once or repeatedly. The mode is applied to
    /// the hardware (see `tamr_value`) and not recorded: `get_mode` keeps
    /// answering the mode recorded before.
    pub fn set_mode(&mut self, timer: TimerId, mode: TimerMode)
        ensures
            *final(self) == *old(self),
    {
    }

    /// The mode recorded for `timer`.
    pub fn get_mode(&self, timer: TimerId) -> (r: TimerMode)
        ensures
            r == self.modes@[timer_index(timer)],
    {
        self.modes[timer.index()]
    }

    /// Puts `timer` in state `state`.
    pub fn set_state(&mut self, timer: TimerId, state: TimerState)
        requires
            state != TimerState::WithPeriod(0),
        ensures
            final(self).states@ == old(self).states@.update(timer_index(timer), state),
            final(self).times == old(self).times,
            final(self).modes == old(self).modes,
            final(self).flags == old(self).flags,
            final(self).clock_freq == old(self).clock_freq,
            final(self).fired == old(self).fired,
    {
        self.states[timer.index()] = state;
    }

    /// The state of `timer`.
    pub fn get_state(&self, timer: TimerId) -> (r: TimerState)
        ensures
            r == self.state(timer),
    {
        self.states[timer.index()]
    }

    /// Records that `timer`'s interrupt handler saw a timeout.
    pub fn record_timeout(&mut self, timer: TimerId)
        ensures
            final(self).fired@ == old(self).fired@.update(timer_index(timer), true),
            final(self).states == old(self).states,
            final(self).times == old(self).times,
            final(self).modes == old(self).modes,
            final(self).flags == old(self).flags,
            final(self).clock_freq == old(self).clock_freq,
    {
        self.fired[timer.index()] = true;
    }

    /// Forgets every latched timeout; the flags themselves are not kept.
    pub fn register_interrupt_flags(&mut self, flags: [bool; NUM_TIMERS])
        ensures
            forall|i: int| 0 <= i < 2 ==> !final(self).fired@[i],
            final(self).states == old(self).states,
            final(self).times == old(self).times,
            final(self).modes == old(self).modes,
            final(self).flags == old(self).flags,
            final(self).clock_freq == old(self).clock_freq,
    {
        self.fired = [false; NUM_TIMERS];
    }

    /// Whether a timeout of `timer` is latched.
    pub fn interrupt_occurred(&self, timer: TimerId) -> (r: bool)
        ensures
            r == self.has_fired(timer),
    {
        self.fired[timer.index()]
    }

    /// Leaves the latched timeout of `timer` in place: only registering the
    /// flags again clears it.
    pub fn reset_interrupt_flag(&mut self, timer: TimerId)
        ensures
            *final(self) == *old(self),
    {
    }

    /// Interrupts are reported enabled whatever the timer's state.
    pub fn interrupts_enabled(&self, timer: TimerId) -> (r: bool)
        ensures
            r,
    {
        true
    }
}

/// A timeout recorded for a timer is reported by `interrupt_occurred` for it
/// until the flags are registered again.
pub proof fn law_recorded_timeout_is_reported(before: TimersShim, after: TimersShim, timer: TimerId)
    requires
        after.fired@ == before.fired@.update(timer_index(timer), true),
    ensures
        after.has_fired(timer),
{
}

} // verus!
