//! The LC-3's PWM pins over a generic PWM peripheral.
//!
//! Pin `P0` is channel 0 of the peripheral and pin `P1` channel 1. Each
//! change of state or duty cycle is recorded here and answered with the one
//! call to make on the peripheral.
use vstd::prelude::*;
use crate::lc3_peripherals::{pwm_index, PwmPin, PwmState, PWM_NUM_PINS};

verus! {

/// A PWM channel.
pub trait Channel {}

/// A call to make on the PWM peripheral.
#[derive(Clone, Copy, Debug, PartialEq, Eq, Structural)]
pub enum PwmCall {
    Enable(u8),
    Disable(u8),
}

/// The call that puts `pin` in state `state`. Disabling `P1` enables its
/// channel: channel 1 is never turned off.
pub open spec fn state_call(pin: PwmPin, state: PwmState) -> PwmCall {
    match (pin, state) {
        (PwmPin::P0, PwmState::Enabled(_)) => PwmCall::Enable(0),
        (PwmPin::P0, PwmState::Disabled) => PwmCall::Disable(0),
        (PwmPin::P1, _) => PwmCall::Enable(1),
    }
}

/// A PWM peripheral, its two pins, and the states and duty cycles the LC-3
/// gave them.
pub struct Lc3Pwm<PWM, Pin> {
    pub pwm: PWM,
    pub pins: [Pin; 2],
    pub pin_states: [PwmState; 2],
    pub pwm_duties: [u32; 2],
}

impl<PWM, Pin> Lc3Pwm<PWM, Pin> {
    /// Records state `state` for `pin` and returns the call that applies it.
    pub fn set_state(&mut self, pin: PwmPin, state: PwmState) -> (r: PwmCall)
        requires
            state != PwmState::Enabled(0),
        ensures
            r == state_call(pin, state),
            pin == PwmPin::P0 && state is Enabled ==> r == PwmCall::Enable(0),
            pin == PwmPin::P0 && state is Disabled ==> r == PwmCall::Disable(0),
            pin == PwmPin::P1 ==> r == PwmCall::Enable(1),
            final(self).pin_states@ == old(self).pin_states@.update(pwm_index(pin), state),
            final(self).pwm_duties == old(self).pwm_duties,
            final(self).pwm == old(self).pwm,
            final(self).pins == old(self).pins,
    {
        match pin {
            PwmPin::P0 => {
                match state {
                    PwmState::Enabled(_) => {
                        self.pin_states[0] = state;
                        PwmCall::Enable(0)
                    },
                    PwmState::Disabled => {
                        self.pin_states[0] = state;
                        PwmCall::Disable(0)
                    },
                }
            },
            PwmPin::P1 => {
                self.pin_states[1] = state;
                PwmCall::Enable(1)
            },
        }
    }

    /// The state of `pin`.
    pub fn get_state(&self, pin: PwmPin) -> (r: PwmState)
        ensures
            r == self.pin_states@[pwm_index(pin)],
    {
        self.pin_states[pin.index()]
    }

    /// Records duty cycle `duty` for `pin` and returns the channel whose
    /// duty the peripheral is to be given.
    pub fn set_duty_cycle(&mut self, pin: PwmPin, duty: u8) -> (channel: u8)
        ensures
            channel == pwm_index(pin),
            final(self).pwm_duties@ == old(self).pwm_duties@.update(pwm_index(pin), duty as u32),
            final(self).pin_states == old(self).pin_states,
            final(self).pwm == old(self).pwm,
            final(self).pins == old(self).pins,
    {
        match pin {
            PwmPin::P0 => {
                self.pwm_duties[0] = duty as u32;
                0
            },
            PwmPin::P1 => {
                self.pwm_duties[1] = duty as u32;
                1
            },
        }
    }

    /// The duty cycle recorded for `pin`, cut to its low byte.
    pub fn get_duty_cycle(&self, pin: PwmPin) -> (r: u8)
        ensures
            r == self.pwm_duties@[pwm_index(pin)] as u8,
    {
        match pin {
            PwmPin::P0 => self.pwm_duties[0] as u8,
            PwmPin::P1 => self.pwm_duties[1] as u8,
        }
    }
}

} // verus!
