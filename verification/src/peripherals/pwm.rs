//! The two PWM pins of the LC-3: their states and duty cycles.
//!
//! Pin `P0` is generator 0 of module `PWM0`, pin `P1` generator 0 of module
//! `PWM1`. A duty cycle `d` out of 256 becomes the compare value
//! `d * period / 256` of the pin's generator.
use vstd::prelude::*;
use crate::lc3_peripherals::{
    pwm_index, PwmPin, PwmSetDutyError, PwmSetPeriodError, PwmState, PWM_NUM_PINS,
};

verus! {

/// The compare value of a generator whose counter reloads at `period`, for a
/// duty cycle of `duty` out of 256.
pub fn compare_value(duty: u8, period: u32) -> (r: u32)
    requires
        duty * period <= u32::MAX,
    ensures
        r == duty * period / 256,
{
    let d: u32 = duty as u32;
    d * period / 256
}

/// The enable register of a PWM module after the output at `mask` is turned
/// on or off; the other outputs keep their bits.
pub fn enable_bits(enable: u32, mask: u32, on: bool) -> (r: u32)
    ensures
        r == if on { enable | mask } else { enable & !mask },
{
    if on {
        enable | mask
    } else {
        enable & !mask
    }
}

/// The states and duty cycles of the PWM pins.
pub struct PwmShim {
    pub states: [PwmState; PWM_NUM_PINS],
    pub duty_cycle: [u8; PWM_NUM_PINS],
}

impl PwmShim {
    /// The state of `pin`.
    pub open spec fn state(&self, pin: PwmPin) -> PwmState {
        self.states@[pwm_index(pin)]
    }

    /// The duty cycle of `pin`.
    pub open spec fn duty(&self, pin: PwmPin) -> u8 {
        self.duty_cycle@[pwm_index(pin)]
    }

    /// Both pins disabled, at duty cycle zero.
    pub fn default() -> (r: PwmShim)
        ensures
            forall|i: int| 0 <= i < 2 ==> r.states@[i] == PwmState::Disabled,
            forall|i: int| 0 <= i < 2 ==> r.duty_cycle@[i] == 0,
    {
        PwmShim { states: [PwmState::Disabled; PWM_NUM_PINS], duty_cycle: [0; PWM_NUM_PINS] }
    }

    /// The same as `default`.
    pub fn new() -> (r: PwmShim)
        ensures
            forall|i: int| 0 <= i < 2 ==> r.states@[i] == PwmState::Disabled,
            forall|i: int| 0 <= i < 2 ==> r.duty_cycle@[i] == 0,
    {
        Self::default()
    }

    /// The state of `pin`.
    pub fn get_pin_state(&self, pin: PwmPin) -> (r: PwmState)
        ensures
            r == self.state(pin),
    {
        self.states[pin.index()]
    }

    /// Puts `pin` in state `state`. Never fails.
    pub fn set_state(&mut self, pin: PwmPin, state: PwmState) -> (r: Result<(), PwmSetPeriodError>)
        requires
            state != PwmState::Enabled(0),
        ensures
            r is Ok,
            final(self).states@ == old(self).states@.update(pwm_index(pin), state),
            final(self).duty_cycle == old(self).duty_cycle,
    {
        self.states[pin.index()] = state;
        Ok(())
    }

    /// The state of `pin`.
    pub fn get_state(&self, pin: PwmPin) -> (r: PwmState)
        ensures
            r == self.state(pin),
    {
        self.states[pin.index()]
    }

    /// The level of `pin`: the levels are not sampled, so always low.
    pub fn get_pin(&self, pin: PwmPin) -> (r: bool)
        ensures
            !r,
    {
        false
    }

    /// Gives `pin` the duty cycle `duty` out of 256. Never fails.
    pub fn set_duty_cycle(&mut self, pin: PwmPin, duty: u8) -> (r: Result<(), PwmSetDutyError>)
        ensures
            r is Ok,
            final(self).states == old(self).states,
            final(self).duty_cycle@ == old(self).duty_cycle@.update(pwm_index(pin), duty),
    {
        self.duty_cycle[pin.index()] = duty;
        Ok(())
    }

    /// The duty cycle of `pin`.
    pub fn get_duty_cycle(&self, pin: PwmPin) -> (r: u8)
        ensures
            r == self.duty(pin),
    {
        self.duty_cycle[pin.index()]
    }
}

/// The duty cycle set last on a pin is the one read back from it.
pub proof fn law_duty_cycle_read_back(before: PwmShim, after: PwmShim, pin: PwmPin, duty: u8)
    requires
        after.duty_cycle@ == before.duty_cycle@.update(pwm_index(pin), duty),
    ensures
        after.duty(pin) == duty,
{
}

} // verus!
