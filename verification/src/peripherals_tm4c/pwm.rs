//! The two PWM pins of the LC-3 on the TM4C launchpad.
//!
//! Both pins are outputs of generator 0 of module `PWM0`: `P0` on `PB6`,
//! compare register A and enable bit 0; `P1` on `PB7`, compare register B
//! and enable bit 1. Enabling a pin with period `n` loads the generator with
//! 255 and compares at `n`.
use vstd::prelude::*;
use crate::lc3_peripherals::{pwm_index, PwmPin, PwmState, PWM_NUM_PINS};

verus! {

/// The mask of `pin`'s output in the enable register of `PWM0`.
pub open spec fn enable_mask_spec(pin: PwmPin) -> u32 {
    match pin {
        PwmPin::P0 => 1,
        PwmPin::P1 => 2,
    }
}

/// The mask of `pin`'s output in the enable register of `PWM0`.
pub fn enable_mask(pin: PwmPin) -> (r: u32)
    ensures
        r == enable_mask_spec(pin),
        pin == PwmPin::P0 ==> r == 1,
        pin == PwmPin::P1 ==> r == 2,
{
    match pin {
        PwmPin::P0 => 1,
        PwmPin::P1 => 2,
    }
}

/// The states and duty cycles of the PWM pins.
pub struct PwmShim {
    pub states: [PwmState; PWM_NUM_PINS],
    pub duty_cycle: [u8; PWM_NUM_PINS],
}

impl PwmShim {
    /// The state of `pin`.
    pub open spec fn state(&self, pin: PwmPin) -> PwmState {
        self.states@[pwm_index(pin)]
    }

    /// The duty cycle of `pin`.
    pub open spec fn duty(&self, pin: PwmPin) -> u8 {
        self.duty_cycle@[pwm_index(pin)]
    }

    /// Both pins disabled, at duty cycle zero.
    pub fn new() -> (r: PwmShim)
        ensures
            forall|i: int| 0 <= i < 2 ==> r.states@[i] == PwmState::Disabled,
            forall|i: int| 0 <= i < 2 ==> r.duty_cycle@[i] == 0,
    {
        PwmShim { states: [PwmState::Disabled; PWM_NUM_PINS], duty_cycle: [0; PWM_NUM_PINS] }
    }

    /// The state of `pin`.
    pub fn get_pin_state(&self, pin: PwmPin) -> (r: PwmState)
        ensures
            r == self.state(pin),
    {
        self.states[pin.index()]
    }

    /// Puts `pin` in state `state`.
    pub fn set_state(&mut self, pin: PwmPin, state: PwmState)
        requires
            state != PwmState::Enabled(0),
        ensures
            final(self).states@ == old(self).states@.update(pwm_index(pin), state),
            final(self).duty_cycle == old(self).duty_cycle,
    {
        self.states[pin.index()] = state;
    }

    /// The state of `pin`.
    pub fn get_state(&self, pin: PwmPin) -> (r: PwmState)
        ensures
            r == self.state(pin),
    {
        self.states[pin.index()]
    }

    /// Gives `pin` the duty cycle `duty` out of 256.
    pub fn set_duty_cycle(&mut self, pin: PwmPin, duty: u8)
        ensures
            final(self).states == old(self).states,
            final(self).duty_cycle@ == old(self).duty_cycle@.update(pwm_index(pin), duty),
    {
        self.duty_cycle[pin.index()] = duty;
    }

    /// The duty cycle of `pin`.
    pub fn get_duty_cycle(&self, pin: PwmPin) -> (r: u8)
        ensures
            r == self.duty(pin),
    {
        self.duty_cycle[pin.index()]
    }
}

} // verus!
