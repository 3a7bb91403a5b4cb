//! GPIO pins over any block of eight hardware pins.
//!
//! Only the input and output modes are served: a request for another mode
//! changes nothing, and the interrupt calls are accepted and do nothing, with
//! interrupts always reported as enabled and occurred. The hardware pins are
//! carried in `pin_block`, which the caller drives.
use vstd::prelude::*;
use crate::lc3_peripherals::{
    gpio_index, GpioMiscError, GpioPin, GpioReadError, GpioState, GpioWriteError, GPIO_NUM_PINS,
};
pub use crate::peripherals::gpio::State;

verus! {

/// The pins' states, with the hardware pin block they stand for.
pub struct physical_pins<B> {
    pub states: [State; GPIO_NUM_PINS],
    pub flags: [Option<bool>; GPIO_NUM_PINS],
    pub pin_block: Option<B>,
}

impl<B> physical_pins<B> {
    /// The state of `pin`.
    pub open spec fn state(&self, pin: GpioPin) -> State {
        self.states@[gpio_index(pin)]
    }

    /// All eight pins are low inputs over `pin_block`.
    pub fn new(pin_block: B) -> (r: Self)
        ensures
            r.states@ == Seq::new(8, |i: int| State::Input(false)),
            r.flags@ == crate::peripherals::gpio::no_flags(),
            r.pin_block == Some(pin_block),
    {
        let r = physical_pins {
            states: [State::Input(false); GPIO_NUM_PINS],
            flags: [None; GPIO_NUM_PINS],
            pin_block: Some(pin_block),
        };
        assert(r.states@ =~= Seq::new(8, |i: int| State::Input(false)));
        assert(r.flags@ =~= crate::peripherals::gpio::no_flags());
        r
    }

    /// Pins `G0` to `G3` are low outputs and `G4` to `G7` low inputs, with no
    /// hardware pins behind them.
    pub fn default() -> (r: Self)
        ensures
            r.states@ == crate::peripherals::gpio::initial_states(),
            forall|i: int| 0 <= i < 4 ==> #[trigger] r.states@[i] == State::Output(false),
            forall|i: int| 4 <= i < 8 ==> #[trigger] r.states@[i] == State::Input(false),
            r.flags@ == crate::peripherals::gpio::no_flags(),
            r.pin_block is None,
    {
        let states_init: [State; GPIO_NUM_PINS] = [
            State::Output(false),
            State::Output(false),
            State::Output(false),
            State::Output(false),
            State::Input(false),
            State::Input(false),
            State::Input(false),
            State::Input(false),
        ];
        let r = physical_pins { states: states_init, flags: [None; GPIO_NUM_PINS], pin_block: None };
        assert(r.states@ =~= crate::peripherals::gpio::initial_states());
        assert(r.flags@ =~= crate::peripherals::gpio::no_flags());
        r
    }

    /// Makes `pin` a low input or a low output; a request for the interrupt
    /// or disabled mode changes nothing. Never fails.
    pub fn set_state(&mut self, pin: GpioPin, state: GpioState) -> (r: Result<(), GpioMiscError>)
        ensures
            r is Ok,
            final(self).flags == old(self).flags,
            final(self).pin_block == old(self).pin_block,
            final(self).states@ == match state {
                GpioState::Input => old(self).states@.update(gpio_index(pin), State::Input(false)),
                GpioState::Output => old(self).states@.update(
                    gpio_index(pin),
                    State::Output(false),
                ),
                _ => old(self).states@,
            },
    {
        let i: usize = pin.index();
        match state {
            GpioState::Output => {
                self.states[i] = State::Output(false);
            },
            GpioState::Input => {
                self.states[i] = State::Input(false);
            },
            _ => {},
        }
        Ok(())
    }

    /// The mode of `pin`.
    pub fn get_state(&self, pin: GpioPin) -> (r: GpioState)
        ensures
            r == crate::peripherals::gpio::mode_of(self.state(pin)),
    {
        GpioState::from(self.states[pin.index()])
    }

    /// The level of `pin` if it is an input or an interrupt pin.
    pub fn read(&self, pin: GpioPin) -> (r: Result<bool, GpioReadError>)
        ensures
            r == match self.state(pin) {
                State::Input(b) | State::Interrupt(b) => Ok::<bool, GpioReadError>(b),
                _ => Err(
                    GpioReadError((pin, crate::peripherals::gpio::mode_of(self.state(pin)))),
                ),
            },
    {
        let i: usize = pin.index();
        if let State::Input(b) | State::Interrupt(b) = self.states[i] {
            Ok(b)
        } else {
            Err(GpioReadError((pin, GpioState::from(self.states[i]))))
        }
    }

    /// Sets output `pin` to level `bit`; fails, changing nothing, for a pin
    /// that is not an output.
    pub fn write(&mut self, pin: GpioPin, bit: bool) -> (r: Result<(), GpioWriteError>)
        ensures
            final(self).flags == old(self).flags,
            final(self).pin_block == old(self).pin_block,
            old(self).state(pin) is Output ==> r is Ok && final(self).states@ == old(
                self).states@.update(gpio_index(pin), State::Output(bit)),
            !(old(self).state(pin) is Output) ==> r == Err::<(), GpioWriteError>(
                GpioWriteError((pin, crate::peripherals::gpio::mode_of(old(self).state(pin)))),
            ) && final(self).states@ == old(self).states@,
    {
        let i: usize = pin.index();
        if let State::Output(_) = self.states[i] {
            self.states[i] = State::Output(bit);
            Ok(())
        } else {
            Err(GpioWriteError((pin, GpioState::from(self.states[i]))))
        }
    }

    /// Accepts the LC-3's interrupt flags and keeps nothing of them.
    pub fn register_interrupt_flags(&mut self, flags: [bool; GPIO_NUM_PINS])
        ensures
            *final(self) == *old(self),
    {
    }

    /// Always reports an interrupt.
    pub fn interrupt_occurred(&self, pin: GpioPin) -> (r: bool)
        ensures
            r,
    {
        true
    }

    /// Does nothing.
    pub fn reset_interrupt_flag(&mut self, pin: GpioPin)
        ensures
            *final(self) == *old(self),
    {
    }

    /// Always reports interrupts as enabled.
    pub fn interrupts_enabled(&self, pin: GpioPin) -> (r: bool)
        ensures
            r,
    {
        true
    }
}

} // verus!
