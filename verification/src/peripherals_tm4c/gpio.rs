//! The eight GPIO pins of the LC-3 on the TM4C launchpad.
//!
//! Pins `G0` to `G2` sit on `PF1`, `PF2` and `PF4`, pins `G3` to `G7` on
//! `PB0` to `PB4`. Rising edges on interrupt pins are latched by the port
//! interrupt handlers into a pending set, which is moved into the interrupt
//! flags that the LC-3 registered when it asks whether an interrupt occurred.
//! `set_pin` sets a level on input and interrupt pins only; `write` also
//! drives output pins.
use vstd::prelude::*;
use crate::lc3_peripherals::{
    GpioMiscError, GpioPin, GpioReadError, GpioState, GpioWriteError, GPIO_NUM_PINS,
};
pub use crate::peripherals::gpio::State;

verus! {

/// The two ports whose interrupt handlers serve the GPIO pins.
#[derive(Clone, Copy, Debug, PartialEq, Eq, Structural)]
pub enum InterruptPort {
    F,
    B,
}

/// The port that raises the interrupts of the pin at position `i`.
pub open spec fn source_port(i: int) -> InterruptPort {
    if i < 3 {
        InterruptPort::F
    } else {
        InterruptPort::B
    }
}

/// The mask of the pin at position `i` in its port's interrupt registers.
pub open spec fn source_mask(i: int) -> u32 {
    if i == 0 {
        0x02
    } else if i == 1 {
        0x04
    } else if i == 2 {
        0x10
    } else if i == 3 {
        0x01
    } else if i == 4 {
        0x02
    } else if i == 5 {
        0x04
    } else if i == 6 {
        0x08
    } else {
        0x10
    }
}

/// The bits of `port`'s interrupt registers that belong to GPIO pins.
pub open spec fn port_pins_mask(port: InterruptPort) -> u32 {
    match port {
        InterruptPort::F => 0x16,
        InterruptPort::B => 0x1f,
    }
}

/// Whether the raw interrupt status `ris` of `port` shows an edge on the pin
/// at position `i`.
pub open spec fn edge_seen(port: InterruptPort, ris: u32, i: int) -> bool {
    source_port(i) == port && (ris & source_mask(i)) == source_mask(i)
}

/// The pending set after `port`'s handler saw the raw status `ris`.
pub open spec fn pending_after(pending: Seq<bool>, port: InterruptPort, ris: u32) -> Seq<bool> {
    Seq::new(pending.len(), |i: int| pending[i] || edge_seen(port, ris, i))
}

/// How the hardware side of a pin is set up.
#[derive(Clone, Copy, Debug, PartialEq, Eq, Structural)]
pub enum HwMode {
    Input,
    Output,
    Interrupt,
}

/// The hardware set-up of a pin set up as `current` after the LC-3 asks for
/// mode `requested`: a disabled pin keeps its set-up.
pub open spec fn hw_mode_spec(current: HwMode, requested: GpioState) -> HwMode {
    match requested {
        GpioState::Input => HwMode::Input,
        GpioState::Output => HwMode::Output,
        GpioState::Interrupt => HwMode::Interrupt,
        GpioState::Disabled => current,
    }
}

/// The hardware set-up of a pin set up as `current` after the LC-3 asks for
/// mode `requested`.
pub fn hw_mode_after(current: HwMode, requested: GpioState) -> (r: HwMode)
    ensures
        r == hw_mode_spec(current, requested),
{
    match requested {
        GpioState::Input => HwMode::Input,
        GpioState::Output => HwMode::Output,
        GpioState::Interrupt => HwMode::Interrupt,
        GpioState::Disabled => current,
    }
}

/// A pin in state `state` after level `bit` is set on it: input and
/// interrupt pins take the level, the others keep their state.
pub open spec fn level_set(state: State, bit: bool) -> State {
    match state {
        State::Input(_) => State::Input(bit),
        State::Interrupt(_) => State::Interrupt(bit),
        _ => state,
    }
}

/// Pin state `state` after `bit` is written to it: an output drives `bit`,
/// an input or interrupt pin is set to `bit`, a disabled pin stays as it is.
pub open spec fn written(state: State, bit: bool) -> State {
    match state {
        State::Output(_) => State::Output(bit),
        _ => level_set(state, bit),
    }
}

/// A marker for pins that can be turned into inputs.
pub trait IntoInput {}

/// One value per GPIO pin.
pub struct mapping<T>(pub [T; GPIO_NUM_PINS]);

/// Pin states and interrupt flags of the GPIO shim.
pub struct GpioShim {
    pub states: [State; GPIO_NUM_PINS],
    pub flags: [Option<bool>; GPIO_NUM_PINS],
}

/// The pins' states, the interrupt flags the LC-3 registered, and the
/// interrupts latched by the port handlers and not yet moved into the flags.
pub struct physical_pins {
    pub states: [State; GPIO_NUM_PINS],
    pub flags: Option<[bool; GPIO_NUM_PINS]>,
    pub pending: [bool; GPIO_NUM_PINS],
}

impl physical_pins {
    /// The state of `pin`.
    pub open spec fn state(&self, pin: GpioPin) -> State {
        self.states@[crate::lc3_peripherals::gpio_index(pin)]
    }

    /// Whether an interrupt is pending on `pin`, in the flags or latched.
    pub open spec fn raised(&self, pin: GpioPin) -> bool {
        let i = crate::lc3_peripherals::gpio_index(pin);
        self.pending@[i] || (self.flags matches Some(f) && f@[i])
    }

    /// What `interrupt_occurred` answers for `pin`.
    pub open spec fn occurred(&self, pin: GpioPin) -> bool {
        self.state(pin) is Interrupt && self.raised(pin)
    }

    /// Pins `G0` to `G3` are low outputs and `G4` to `G7` low inputs; no
    /// flags are registered and nothing is pending.
    pub fn new() -> (r: physical_pins)
        ensures
            r.states@ == crate::peripherals::gpio::initial_states(),
            forall|i: int| 0 <= i < 4 ==> #[trigger] r.states@[i] == State::Output(false),
            forall|i: int| 4 <= i < 8 ==> #[trigger] r.states@[i] == State::Input(false),
            r.flags is None,
            r.pending@ == Seq::new(8, |i: int| false),
    {
        let states_init: [State; GPIO_NUM_PINS] = [
            State::Output(false),
            State::Output(false),
            State::Output(false),
            State::Output(false),
            State::Input(false),
            State::Input(false),
            State::Input(false),
            State::Input(false),
        ];
        let r = physical_pins { states: states_init, flags: None, pending: [false; GPIO_NUM_PINS] };
        assert(r.states@ =~= crate::peripherals::gpio::initial_states());
        assert(r.pending@ =~= Seq::new(8, |i: int| false));
        r
    }

    /// Sets the level of `pin` if it is an input or an interrupt pin.
    /// Returns `None`, changing nothing, for an output or disabled pin.
    pub fn set_pin(&mut self, pin: GpioPin, bit: bool) -> (r: Option<()>)
        ensures
            r is Some <==> (old(self).state(pin) is Input || old(self).state(pin) is Interrupt),
            final(self).states@ == old(self).states@.update(
                crate::lc3_peripherals::gpio_index(pin),
                level_set(old(self).state(pin), bit),
            ),
            final(self).flags == old(self).flags,
            final(self).pending == old(self).pending,
            r is None ==> *final(self) == *old(self),
    {
        let i: usize = pin.index();
        match self.states[i] {
            State::Input(_) => {
                self.states[i] = State::Input(bit);
            },
            State::Interrupt(_) => {
                self.states[i] = State::Interrupt(bit);
            },
            State::Output(_) | State::Disabled => {
                proof {
                    assert(self.states@ =~= old(self).states@.update(
                        crate::lc3_peripherals::gpio_index(pin),
                        level_set(old(self).state(pin), bit),
                    ));
                }
                return None;
            },
        }
        Some(())
    }

    /// Moves the latched interrupts into the registered flags and clears
    /// nothing else.
    pub fn update_flags(&mut self)
        requires
            old(self).flags is None ==> forall|i: int| 0 <= i < 8 ==> !old(self).pending@[i],
        ensures
            final(self).states == old(self).states,
            final(self).pending == old(self).pending,
            final(self).flags is Some <==> old(self).flags is Some,
            final(self).flags matches Some(f) ==> forall|i: int|
                0 <= i < 8 ==> f@[i] == (old(self).flags->0@[i] || old(self).pending@[i]),
    {
        match self.flags {
            Some(flags) => {
                let mut f: [bool; GPIO_NUM_PINS] = flags;
                let mut i: usize = 0;
                while i < GPIO_NUM_PINS
                    invariant
                        i <= GPIO_NUM_PINS,
                        self.flags == Some(flags),
                        forall|j: int| 0 <= j < i ==> f@[j] == (flags@[j] || self.pending@[j]),
                        forall|j: int| i <= j < 8 ==> f@[j] == flags@[j],
                    decreases GPIO_NUM_PINS - i,
                {
                    if self.pending[i] {
                        f[i] = true;
                    }
                    i = i + 1;
                }
                self.flags = Some(f);
            },
            None => {},
        }
    }

    /// Records what `port`'s interrupt handler found in its raw interrupt
    /// status `ris`: each pin of that port with its bit set is now pending.
    /// Returns the bits to acknowledge in the port's interrupt clear register.
    pub fn record_interrupts(&mut self, port: InterruptPort, ris: u32) -> (ack: u32)
        ensures
            final(self).states == old(self).states,
            final(self).flags == old(self).flags,
            final(self).pending@ == pending_after(old(self).pending@, port, ris),
            ack == ris & port_pins_mask(port),
            port == InterruptPort::F ==> ack == ris & 0x16 && final(self).pending@ == seq![
                old(self).pending@[0] || ris & 0x02 == 0x02,
                old(self).pending@[1] || ris & 0x04 == 0x04,
                old(self).pending@[2] || ris & 0x10 == 0x10,
                old(self).pending@[3],
                old(self).pending@[4],
                old(self).pending@[5],
                old(self).pending@[6],
                old(self).pending@[7],
            ],
            port == InterruptPort::B ==> ack == ris & 0x1f && final(self).pending@ == seq![
                old(self).pending@[0],
                old(self).pending@[1],
                old(self).pending@[2],
                old(self).pending@[3] || ris & 0x01 == 0x01,
                old(self).pending@[4] || ris & 0x02 == 0x02,
                old(self).pending@[5] || ris & 0x04 == 0x04,
                old(self).pending@[6] || ris & 0x08 == 0x08,
                old(self).pending@[7] || ris & 0x10 == 0x10,
            ],
    {
        let ghost before = self.pending@;
        match port {
            InterruptPort::F => {
                if ris & 0x02 == 0x02 {
                    self.pending[0] = true;
                }
                if ris & 0x04 == 0x04 {
                    self.pending[1] = true;
                }
                if ris & 0x10 == 0x10 {
                    self.pending[2] = true;
                }
            },
            InterruptPort::B => {
                if ris & 0x01 == 0x01 {
                    self.pending[3] = true;
                }
                if ris & 0x02 == 0x02 {
                    self.pending[4] = true;
                }
                if ris & 0x04 == 0x04 {
                    self.pending[5] = true;
                }
                if ris & 0x08 == 0x08 {
                    self.pending[6] = true;
                }
                if ris & 0x10 == 0x10 {
                    self.pending[7] = true;
                }
            },
        }
        assert(self.pending@ =~= pending_after(before, port, ris));
        assert(self.pending@ =~= seq![
            self.pending@[0],
            self.pending@[1],
            self.pending@[2],
            self.pending@[3],
            self.pending@[4],
            self.pending@[5],
            self.pending@[6],
            self.pending@[7],
        ]);
        match port {
            InterruptPort::F => ris & 0x16,
            InterruptPort::B => ris & 0x1f,
        }
    }

    /// The level of `pin`, or `None` when it is disabled.
    pub fn get_pin(&self, pin: GpioPin) -> (r: Option<bool>)
        ensures
            r == match self.state(pin) {
                State::Input(b) | State::Output(b) | State::Interrupt(b) => Some(b),
                State::Disabled => None,
            },
    {
        match self.states[pin.index()] {
            State::Input(b) | State::Output(b) | State::Interrupt(b) => Some(b),
            State::Disabled => None,
        }
    }

    /// The mode of `pin`.
    pub fn get_pin_state(&self, pin: GpioPin) -> (r: GpioState)
        ensures
            r == crate::peripherals::gpio::mode_of(self.state(pin)),
    {
        GpioState::from(self.states[pin.index()])
    }

    /// Puts `pin` in mode `state` at a low level; a pin being disabled is
    /// first written low. Never fails.
    pub fn set_state(&mut self, pin: GpioPin, state: GpioState) -> (r: Result<(), GpioMiscError>)
        ensures
            r is Ok,
            final(self).flags == old(self).flags,
            final(self).pending == old(self).pending,
            final(self).states@ == old(self).states@.update(
                crate::lc3_peripherals::gpio_index(pin),
                match state {
                    GpioState::Input => State::Input(false),
                    GpioState::Output => State::Output(false),
                    GpioState::Interrupt => State::Interrupt(false),
                    GpioState::Disabled => State::Disabled,
                },
            ),
    {
        let i: usize = pin.index();
        match state {
            GpioState::Input => {
                self.states[i] = State::Input(false);
            },
            GpioState::Output => {
                self.states[i] = State::Output(false);
            },
            GpioState::Interrupt => {
                self.states[i] = State::Interrupt(false);
            },
            GpioState::Disabled => {
                self.states[i] = State::Disabled;
                self.set_pin(pin, false);
            },
        };
        Ok(())
    }

    /// The mode of `pin`.
    pub fn get_state(&self, pin: GpioPin) -> (r: GpioState)
        ensures
            r == crate::peripherals::gpio::mode_of(self.state(pin)),
    {
        self.get_pin_state(pin)
    }

    /// The level of `pin` if it is an input or an interrupt pin.
    pub fn read(&self, pin: GpioPin) -> (r: Result<bool, GpioReadError>)
        ensures
            r == match self.state(pin) {
                State::Input(b) | State::Interrupt(b) => Ok::<bool, GpioReadError>(b),
                _ => Err(
                    GpioReadError((pin, crate::peripherals::gpio::mode_of(self.state(pin)))),
                ),
            },
    {
        let i: usize = pin.index();
        if let State::Input(b) | State::Interrupt(b) = self.states[i] {
            Ok(b)
        } else {
            Err(GpioReadError((pin, GpioState::from(self.states[i]))))
        }
    }

    /// Writes `bit` to `pin`: an output pin now drives `bit`, an input or
    /// interrupt pin is set as `set_pin` does, and a disabled pin is left as
    /// it is. Never fails.
    pub fn write(&mut self, pin: GpioPin, bit: bool) -> (r: Result<(), GpioWriteError>)
        ensures
            r is Ok,
            final(self).states@ == old(self).states@.update(
                crate::lc3_peripherals::gpio_index(pin),
                written(old(self).state(pin), bit),
            ),
            final(self).flags == old(self).flags,
            final(self).pending == old(self).pending,
    {
        let i: usize = pin.index();
        if let State::Output(_) = self.states[i] {
            self.states[i] = State::Output(bit);
        } else {
            self.set_pin(pin, bit);
        }
        Ok(())
    }

    /// Registers the LC-3's interrupt flags, replacing any registered before,
    /// and forgets every latched interrupt.
    pub fn register_interrupt_flags(&mut self, flags: [bool; GPIO_NUM_PINS])
        ensures
            final(self).states == old(self).states,
            final(self).flags == Some(flags),
            final(self).pending@ == Seq::new(8, |i: int| false),
    {
        self.pending = [false; GPIO_NUM_PINS];
        self.flags = Some(flags);
        assert(self.pending@ =~= Seq::new(8, |i: int| false));
    }

    /// Moves the latched interrupts into the flags, then tells whether an
    /// interrupt is pending on `pin` while it is in interrupt mode.
    pub fn interrupt_occurred(&mut self, pin: GpioPin) -> (r: bool)
        requires
            old(self).flags is Some,
        ensures
            r == old(self).occurred(pin),
            final(self).occurred(pin) == old(self).occurred(pin),
            final(self).states == old(self).states,
            final(self).pending == old(self).pending,
            final(self).flags is Some,
            forall|i: int|
                0 <= i < 8 ==> final(self).flags->0@[i] == (old(self).flags->0@[i]
                    || old(self).pending@[i]),
    {
        self.update_flags();
        match self.flags {
            Some(flags) => {
                let occurred: bool = flags[pin.index()];
                self.interrupts_enabled(pin) && occurred
            },
            None => false,
        }
    }

    /// Clears the flag and the latched interrupt of `pin`.
    pub fn reset_interrupt_flag(&mut self, pin: GpioPin)
        requires
            old(self).flags is Some,
        ensures
            final(self).states == old(self).states,
            final(self).flags is Some,
            final(self).flags->0@ == old(self).flags->0@.update(
                crate::lc3_peripherals::gpio_index(pin),
                false,
            ),
            final(self).pending@ == old(self).pending@.update(
                crate::lc3_peripherals::gpio_index(pin),
                false,
            ),
            !final(self).occurred(pin),
    {
        let i: usize = pin.index();
        match self.flags {
            Some(flags) => {
                let mut f: [bool; GPIO_NUM_PINS] = flags;
                f[i] = false;
                self.flags = Some(f);
            },
            None => {},
        }
        self.pending[i] = false;
    }

    /// Whether `pin` is in interrupt mode.
    pub fn interrupts_enabled(&self, pin: GpioPin) -> (r: bool)
        ensures
            r == (self.state(pin) is Interrupt),
    {
        self.get_state(pin) == GpioState::Interrupt
    }
}

/// An edge that a port handler records on a pin in interrupt mode is reported
/// by `interrupt_occurred` for that pin.
pub proof fn law_recorded_edge_is_reported(
    before: physical_pins,
    after: physical_pins,
    pin: GpioPin,
    ris: u32,
)
    requires
        before.state(pin) is Interrupt,
        (ris & source_mask(crate::lc3_peripherals::gpio_index(pin))) == source_mask(
            crate::lc3_peripherals::gpio_index(pin),
        ),
        after.states == before.states,
        after.flags == before.flags,
        after.pending@ == pending_after(
            before.pending@,
            source_port(crate::lc3_peripherals::gpio_index(pin)),
            ris,
        ),
    ensures
        after.occurred(pin),
{
    let i = crate::lc3_peripherals::gpio_index(pin);
    assert(edge_seen(source_port(i), ris, i));
    assert(after.pending@[i]);
}

/// A level set on an input or interrupt pin is the level `get_pin` then
/// reads back, and the pin keeps its mode.
pub proof fn law_get_pin_after_write(before: physical_pins, after: physical_pins, pin: GpioPin, bit: bool)
    requires
        before.state(pin) is Input || before.state(pin) is Interrupt,
        after.states@ == before.states@.update(
            crate::lc3_peripherals::gpio_index(pin),
            level_set(before.state(pin), bit),
        ),
    ensures
        after.state(pin) == State::Input(bit) || after.state(pin) == State::Interrupt(bit),
        crate::peripherals::gpio::mode_of(after.state(pin)) == crate::peripherals::gpio::mode_of(
            before.state(pin),
        ),
{
}

/// Each GPIO pin is pending exactly on its own port bit: `G0` to `G2` on
/// bits 0x02, 0x04 and 0x10 of port F (`PF1`, `PF2`, `PF4`), `G3` to `G7` on
/// bits 0x01 to 0x10 of port B (`PB0` to `PB4`). Every bit a handler
/// acknowledges marks the pin wired to it, and no two pins share a bit.
pub proof fn law_interrupt_wiring(i: int, j: int, port: InterruptPort, ris: u32, b: u32)
    requires
        0 <= i < 8,
        0 <= j < 8,
    ensures
        source_port(0) == InterruptPort::F && source_mask(0) == 0x02,
        source_port(1) == InterruptPort::F && source_mask(1) == 0x04,
        source_port(2) == InterruptPort::F && source_mask(2) == 0x10,
        source_port(3) == InterruptPort::B && source_mask(3) == 0x01,
        source_port(4) == InterruptPort::B && source_mask(4) == 0x02,
        source_port(5) == InterruptPort::B && source_mask(5) == 0x04,
        source_port(6) == InterruptPort::B && source_mask(6) == 0x08,
        source_port(7) == InterruptPort::B && source_mask(7) == 0x10,
        i != j && source_port(i) == source_port(j) ==> source_mask(i) != source_mask(j),
        (b == 0x01 || b == 0x02 || b == 0x04 || b == 0x08 || b == 0x10) && ris & b == b && ris
            & port_pins_mask(port) & b == b ==> exists|k: int|
            0 <= k < 8 && source_port(k) == port && source_mask(k) == b && #[trigger] edge_seen(
                port,
                ris,
                k,
            ),
{
    if (b == 0x01 || b == 0x02 || b == 0x04 || b == 0x08 || b == 0x10) && ris & b == b && ris
        & port_pins_mask(port) & b == b {
        assert(0x16u32 & 0x01u32 == 0 && 0x16u32 & 0x08u32 == 0) by (bit_vector);
        assert(ris & 0x16u32 & 0x01u32 != 0x01u32) by (bit_vector);
        assert(ris & 0x16u32 & 0x08u32 != 0x08u32) by (bit_vector);
        match port {
            InterruptPort::F => {
                if b == 0x02 {
                    assert(edge_seen(port, ris, 0));
                } else if b == 0x04 {
                    assert(edge_seen(port, ris, 1));
                } else if b == 0x10 {
                    assert(edge_seen(port, ris, 2));
                }
            },
            InterruptPort::B => {
                if b == 0x01 {
                    assert(edge_seen(port, ris, 3));
                } else if b == 0x02 {
                    assert(edge_seen(port, ris, 4));
                } else if b == 0x04 {
                    assert(edge_seen(port, ris, 5));
                } else if b == 0x08 {
                    assert(edge_seen(port, ris, 6));
                } else {
                    assert(edge_seen(port, ris, 7));
                }
            },
        }
    }
}

} // verus!
