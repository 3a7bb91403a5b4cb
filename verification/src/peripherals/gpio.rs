//! The state of the eight GPIO pins, as the LC-3 sees them.
//!
//! Each pin is an input, an output, an input raising interrupts on a rising
//! edge, or disabled; the first three carry the pin's level. A pin's
//! interrupt flag must be registered before the pin can raise or report an
//! interrupt.
use vstd::prelude::*;
use crate::lc3_peripherals::{
    gpio_index, GpioMiscError, GpioPin, GpioReadError, GpioState, GpioWriteError, GPIO_NUM_PINS,
};

verus! {

/// A pin's mode and level.
#[derive(Clone, Copy, Debug, PartialEq, Eq, Structural)]
pub enum State {
    Input(bool),
    Output(bool),
    Interrupt(bool),
    Disabled,
}

/// The mode of a pin in state `state`.
pub open spec fn mode_of(state: State) -> GpioState {
    match state {
        State::Input(_) => GpioState::Input,
        State::Output(_) => GpioState::Output,
        State::Interrupt(_) => GpioState::Interrupt,
        State::Disabled => GpioState::Disabled,
    }
}

impl From<State> for GpioState {
    fn from(state: State) -> (r: GpioState) {
        match state {
            State::Input(_) => GpioState::Input,
            State::Output(_) => GpioState::Output,
            State::Interrupt(_) => GpioState::Interrupt,
            State::Disabled => GpioState::Disabled,
        }
    }
}

impl vstd::std_specs::convert::FromSpecImpl<State> for GpioState {
    open spec fn obeys_from_spec() -> bool {
        true
    }

    open spec fn from_spec(state: State) -> GpioState {
        mode_of(state)
    }
}

/// The pins at start: `G0` to `G3` low outputs, `G4` to `G7` low inputs.
pub open spec fn initial_states() -> Seq<State> {
    seq![
        State::Output(false),
        State::Output(false),
        State::Output(false),
        State::Output(false),
        State::Input(false),
        State::Input(false),
        State::Input(false),
        State::Input(false),
    ]
}

/// At start-up pins `G0` to `G3` are low outputs and `G4` to `G7` low
/// inputs: reading `G4` to `G7` succeeds, and writing them fails.
pub proof fn law_start_up_states()
    ensures
        initial_states().len() == 8,
        forall|i: int| 0 <= i < 4 ==> #[trigger] initial_states()[i] == State::Output(false),
        forall|i: int| 4 <= i < 8 ==> #[trigger] initial_states()[i] == State::Input(false),
        forall|i: int| 0 <= i < 4 ==> mode_of(#[trigger] initial_states()[i]) == GpioState::Output,
        forall|i: int| 4 <= i < 8 ==> mode_of(#[trigger] initial_states()[i]) == GpioState::Input,
{
}

/// No interrupt flag registered on any pin.
pub open spec fn no_flags() -> Seq<Option<bool>> {
    Seq::new(8, |i: int| None::<bool>)
}

/// One value per GPIO pin.
pub struct mapping<T>(pub [T; GPIO_NUM_PINS]);

/// The pins' states and interrupt flags. A registered flag holds whether an
/// interrupt is pending on its pin.
pub struct physical_pins {
    pub states: [State; GPIO_NUM_PINS],
    pub flags: [Option<bool>; GPIO_NUM_PINS],
}

/// Pin states and interrupt flags of the GPIO shim.
pub struct GpioShim {
    pub states: [State; GPIO_NUM_PINS],
    pub flags: [Option<bool>; GPIO_NUM_PINS],
}

impl physical_pins {
    /// The state of `pin`.
    pub open spec fn state(&self, pin: GpioPin) -> State {
        self.states@[gpio_index(pin)]
    }

    /// The interrupt flag of `pin`.
    pub open spec fn flag(&self, pin: GpioPin) -> Option<bool> {
        self.flags@[gpio_index(pin)]
    }

    /// Pins `G0` to `G3` are low outputs and `G4` to `G7` low inputs; no
    /// interrupt flag is registered.
    pub fn default() -> (r: physical_pins)
        ensures
            r.states@ == initial_states(),
            forall|i: int| 0 <= i < 4 ==> #[trigger] r.states@[i] == State::Output(false),
            forall|i: int| 4 <= i < 8 ==> #[trigger] r.states@[i] == State::Input(false),
            r.flags@ == no_flags(),
    {
        let states_init: [State; GPIO_NUM_PINS] = [
            State::Output(false),
            State::Output(false),
            State::Output(false),
            State::Output(false),
            State::Input(false),
            State::Input(false),
            State::Input(false),
            State::Input(false),
        ];
        let r = physical_pins { states: states_init, flags: [None; GPIO_NUM_PINS] };
        assert(r.states@ =~= initial_states());
        assert(r.flags@ =~= no_flags());
        r
    }

    /// The same pins as `default`.
    pub fn new() -> (r: physical_pins)
        ensures
            r.states@ == initial_states(),
            forall|i: int| 0 <= i < 4 ==> #[trigger] r.states@[i] == State::Output(false),
            forall|i: int| 4 <= i < 8 ==> #[trigger] r.states@[i] == State::Input(false),
            r.flags@ == no_flags(),
    {
        Self::default()
    }

    /// Sets the level of `pin` if it is an input or an interrupt pin; a
    /// rising edge on an interrupt pin also raises its interrupt. Returns
    /// `None`, changing nothing, for an output or disabled pin.
    pub fn set_pin(&mut self, pin: GpioPin, bit: bool) -> (r: Option<()>)
        requires
            old(self).state(pin) == State::Interrupt(false) && bit ==> old(self).flag(pin) is Some,
        ensures
            r is Some <==> (old(self).state(pin) is Input || old(self).state(pin) is Interrupt),
            old(self).state(pin) is Input ==> final(self).states@ == old(self).states@.update(
                gpio_index(pin),
                State::Input(bit),
            ) && final(self).flags@ == old(self).flags@,
            old(self).state(pin) is Interrupt ==> final(self).states@ == old(self).states@.update(
                gpio_index(pin),
                State::Interrupt(bit),
            ),
            old(self).state(pin) == State::Interrupt(false) && bit ==> final(self).flags@ == old(
                self).flags@.update(gpio_index(pin), Some(true)),
            old(self).state(pin) is Interrupt && !(old(self).state(pin) == State::Interrupt(false)
                && bit) ==> final(self).flags@ == old(self).flags@,
            r is None ==> *final(self) == *old(self),
    {
        let i: usize = pin.index();
        match self.states[i] {
            State::Input(_) => {
                self.states[i] = State::Input(bit);
            },
            State::Interrupt(prev) => {
                if bit && !prev {
                    self.raise_interrupt(pin);
                }
                self.states[i] = State::Interrupt(bit);
            },
            State::Output(_) | State::Disabled => return None,
        };
        Some(())
    }

    fn raise_interrupt(&mut self, pin: GpioPin)
        requires
            old(self).flag(pin) is Some,
        ensures
            final(self).states@ == old(self).states@,
            final(self).flags@ == old(self).flags@.update(gpio_index(pin), Some(true)),
    {
        let i: usize = pin.index();
        self.flags[i] = Some(true);
    }

    /// The level of `pin`, or `None` when it is disabled.
    pub fn get_pin(&self, pin: GpioPin) -> (r: Option<bool>)
        ensures
            r == match self.state(pin) {
                State::Input(b) | State::Output(b) | State::Interrupt(b) => Some(b),
                State::Disabled => None,
            },
    {
        match self.states[pin.index()] {
            State::Input(b) | State::Output(b) | State::Interrupt(b) => Some(b),
            State::Disabled => None,
        }
    }

    /// The mode of `pin`.
    pub fn get_pin_state(&self, pin: GpioPin) -> (r: GpioState)
        ensures
            r == mode_of(self.state(pin)),
    {
        GpioState::from(self.states[pin.index()])
    }

    /// Puts `pin` in mode `state` at a low level.
    pub fn set_state(&mut self, pin: GpioPin, state: GpioState) -> (r: Result<(), GpioMiscError>)
        ensures
            r is Ok,
            final(self).flags@ == old(self).flags@,
            final(self).states@ == old(self).states@.update(
                gpio_index(pin),
                match state {
                    GpioState::Input => State::Input(false),
                    GpioState::Output => State::Output(false),
                    GpioState::Interrupt => State::Interrupt(false),
                    GpioState::Disabled => State::Disabled,
                },
            ),
    {
        let i: usize = pin.index();
        match state {
            GpioState::Input => {
                self.states[i] = State::Input(false);
            },
            GpioState::Output => {
                self.states[i] = State::Output(false);
            },
            GpioState::Interrupt => {
                self.states[i] = State::Interrupt(false);
            },
            GpioState::Disabled => {
                self.states[i] = State::Disabled;
            },
        };
        Ok(())
    }

    /// The mode of `pin`.
    pub fn get_state(&self, pin: GpioPin) -> (r: GpioState)
        ensures
            r == mode_of(self.state(pin)),
    {
        self.get_pin_state(pin)
    }

    /// The level of `pin` if it is an input or an interrupt pin.
    pub fn read(&self, pin: GpioPin) -> (r: Result<bool, GpioReadError>)
        ensures
            r == match self.state(pin) {
                State::Input(b) | State::Interrupt(b) => Ok::<bool, GpioReadError>(b),
                _ => Err(GpioReadError((pin, mode_of(self.state(pin))))),
            },
    {
        let i: usize = pin.index();
        if let State::Input(b) | State::Interrupt(b) = self.states[i] {
            Ok(b)
        } else {
            Err(GpioReadError((pin, GpioState::from(self.states[i]))))
        }
    }

    /// Drives output `pin` to level `bit`; fails, changing nothing, for a pin
    /// that is not an output.
    pub fn write(&mut self, pin: GpioPin, bit: bool) -> (r: Result<(), GpioWriteError>)
        ensures
            final(self).flags@ == old(self).flags@,
            old(self).state(pin) is Output ==> r is Ok && final(self).states@ == old(
                self).states@.update(gpio_index(pin), State::Output(bit)),
            !(old(self).state(pin) is Output) ==> r == Err::<(), GpioWriteError>(
                GpioWriteError((pin, mode_of(old(self).state(pin)))),
            ) && final(self).states@ == old(self).states@,
    {
        let i: usize = pin.index();
        if let State::Output(_) = self.states[i] {
            self.states[i] = State::Output(bit);
            Ok(())
        } else {
            Err(GpioWriteError((pin, GpioState::from(self.states[i]))))
        }
    }

    /// Registers the interrupt flag of `pin`, whose value is `flag`. A pin's
    /// flag is registered once.
    pub fn register_interrupt_flag(&mut self, pin: GpioPin, flag: bool)
        requires
            old(self).flag(pin) is None,
        ensures
            final(self).states@ == old(self).states@,
            final(self).flags@ == old(self).flags@.update(gpio_index(pin), Some(flag)),
    {
        let i: usize = pin.index();
        self.flags[i] = Some(flag);
    }

    /// Whether an interrupt is pending on `pin` while it is in interrupt mode.
    pub fn interrupt_occurred(&self, pin: GpioPin) -> (r: bool)
        requires
            self.flag(pin) is Some,
        ensures
            r == (self.state(pin) is Interrupt && self.flag(pin) == Some(true)),
    {
        match self.flags[pin.index()] {
            Some(flag) => {
                let occurred: bool = flag;
                self.interrupts_enabled(pin) && occurred
            },
            None => false,
        }
    }

    /// Clears the interrupt flag of `pin`.
    pub fn reset_interrupt_flag(&mut self, pin: GpioPin)
        requires
            old(self).flag(pin) is Some,
        ensures
            final(self).states@ == old(self).states@,
            final(self).flags@ == old(self).flags@.update(gpio_index(pin), Some(false)),
    {
        let i: usize = pin.index();
        self.flags[i] = Some(false);
    }

    /// Whether `pin` is in interrupt mode.
    pub fn interrupts_enabled(&self, pin: GpioPin) -> (r: bool)
        ensures
            r == (self.state(pin) is Interrupt),
    {
        self.get_state(pin) == GpioState::Interrupt
    }
}

/// A level written to an output pin is the level `get_pin` and `get_state`
/// then report for it.
pub proof fn law_output_reads_back(before: physical_pins, after: physical_pins, pin: GpioPin, bit: bool)
    requires
        before.state(pin) is Output,
        after.states@ == before.states@.update(gpio_index(pin), State::Output(bit)),
    ensures
        after.state(pin) == State::Output(bit),
        mode_of(after.state(pin)) == GpioState::Output,
{
}

/// A rising edge set on a pin in interrupt mode, whose flag is registered, is
/// reported by `interrupt_occurred`.
pub proof fn law_rising_edge_is_reported(before: physical_pins, after: physical_pins, pin: GpioPin)
    requires
        before.state(pin) == State::Interrupt(false),
        before.flag(pin) is Some,
        after.states@ == before.states@.update(gpio_index(pin), State::Interrupt(true)),
        after.flags@ == before.flags@.update(gpio_index(pin), Some(true)),
    ensures
        after.state(pin) == State::Interrupt(true) && after.flag(pin) == Some(true),
{
}

} // verus!
