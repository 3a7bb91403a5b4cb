//! The six ADC pins of the LC-3 on the TM4C launchpad.
//!
//! All pins are sampled by sequencer 3 of `ADC0`; pins `A0` to `A5` are the
//! analog inputs 0, 1, 2, 3, 8 and 9. A 12-bit sample is read as its top
//! eight bits.
use vstd::prelude::*;
use crate::lc3_peripherals::{
    adc_index, AdcMiscError, AdcPin, AdcReadError, AdcState, ADC_NUM_PINS,
};

verus! {

/// The value a pin is enabled with.
pub const INIT_VALUE: u8 = 0;

/// A pin's state: enabled with its last value, or disabled.
#[derive(Clone, Copy, Debug, PartialEq, Eq, Structural)]
pub enum State {
    Enabled(u8),
    Disabled,
}

/// Whether a pin in state `state` is enabled.
pub open spec fn adc_state_of(state: State) -> AdcState {
    match state {
        State::Enabled(_) => AdcState::Enabled,
        State::Disabled => AdcState::Disabled,
    }
}

impl From<State> for AdcState {
    fn from(state: State) -> (r: AdcState) {
        match state {
            State::Enabled(_) => AdcState::Enabled,
            State::Disabled => AdcState::Disabled,
        }
    }
}

impl vstd::std_specs::convert::FromSpecImpl<State> for AdcState {
    open spec fn obeys_from_spec() -> bool {
        true
    }

    open spec fn from_spec(state: State) -> AdcState {
        adc_state_of(state)
    }
}

/// A value given to a pin that is not enabled: the pin and its state.
#[derive(Clone, Copy, Debug, PartialEq, Eq)]
pub struct SetError(pub (AdcPin, AdcState));

/// The analog input that `pin` is wired to.
pub open spec fn analog_input(pin: AdcPin) -> u32 {
    match pin {
        AdcPin::A0 => 0,
        AdcPin::A1 => 1,
        AdcPin::A2 => 2,
        AdcPin::A3 => 3,
        AdcPin::A4 => 8,
        AdcPin::A5 => 9,
    }
}

/// The sequencer's multiplexer register `ssmux` set to sample `pin`: its low
/// four bits are replaced by the pin's analog input.
pub fn mux_select(ssmux: u32, pin: AdcPin) -> (r: u32)
    ensures
        r == (ssmux & !0xfu32) + analog_input(pin),
        pin == AdcPin::A0 ==> r == (ssmux & !0xfu32) + 0,
        pin == AdcPin::A1 ==> r == (ssmux & !0xfu32) + 1,
        pin == AdcPin::A2 ==> r == (ssmux & !0xfu32) + 2,
        pin == AdcPin::A3 ==> r == (ssmux & !0xfu32) + 3,
        pin == AdcPin::A4 ==> r == (ssmux & !0xfu32) + 8,
        pin == AdcPin::A5 ==> r == (ssmux & !0xfu32) + 9,
{
    let cleared: u32 = ssmux & !0xfu32;
    assert(cleared <= 0xffff_fff0u32) by (bit_vector)
        requires
            cleared == ssmux & !0xfu32,
    ;
    let input: u32 = match pin {
        AdcPin::A0 => 0,
        AdcPin::A1 => 1,
        AdcPin::A2 => 2,
        AdcPin::A3 => 3,
        AdcPin::A4 => 8,
        AdcPin::A5 => 9,
    };
    cleared + input
}

/// The reading of a pin whose conversion left `fifo` in the sequencer's
/// result register: the top eight of the twelve sample bits.
pub open spec fn reading_of(fifo: u32) -> u8 {
    ((fifo & 0xfff) / 16) as u8
}

/// The reading of a pin whose conversion left `fifo` in the result register.
pub fn sample_to_reading(fifo: u32) -> (r: u8)
    ensures
        r == reading_of(fifo),
        r as int == (fifo & 0xfff) / 16,
{
    let sample: u32 = fifo & 0x0fff;
    assert(sample <= 0xfff) by (bit_vector)
        requires
            sample == fifo & 0x0fff,
    ;
    (sample / 16) as u8
}

/// The states of the ADC pins.
pub struct AdcShim {
    pub states: [State; ADC_NUM_PINS],
}

impl AdcShim {
    /// The state of `pin`.
    pub open spec fn state(&self, pin: AdcPin) -> State {
        self.states@[adc_index(pin)]
    }

    /// All pins disabled.
    pub fn default() -> (r: AdcShim)
        ensures
            forall|i: int| 0 <= i < 6 ==> r.states@[i] == State::Disabled,
    {
        AdcShim { states: [State::Disabled; ADC_NUM_PINS] }
    }

    /// All pins disabled.
    pub fn new() -> (r: AdcShim)
        ensures
            forall|i: int| 0 <= i < 6 ==> r.states@[i] == State::Disabled,
    {
        Self::default()
    }

    /// Gives enabled `pin` the value `value`; fails, changing nothing, for a
    /// disabled pin.
    pub fn set_value(&mut self, pin: AdcPin, value: u8) -> (r: Result<(), SetError>)
        ensures
            old(self).state(pin) is Enabled ==> r is Ok && final(self).states@ == old(
                self).states@.update(adc_index(pin), State::Enabled(value)),
            old(self).state(pin) is Disabled ==> r == Err::<(), SetError>(
                SetError((pin, AdcState::Disabled)),
            ) && final(self).states == old(self).states,
    {
        let i: usize = pin.index();
        match self.states[i] {
            State::Enabled(_) => {
                self.states[i] = State::Enabled(value);
                Ok(())
            },
            State::Disabled => Err(SetError((pin, self.get_state(pin)))),
        }
    }

    /// Enables `pin` with value `INIT_VALUE`, or disables it. Never fails.
    pub fn set_state(&mut self, pin: AdcPin, state: AdcState) -> (r: Result<(), AdcMiscError>)
        ensures
            r is Ok,
            final(self).states@ == old(self).states@.update(
                adc_index(pin),
                match state {
                    AdcState::Enabled => State::Enabled(INIT_VALUE),
                    AdcState::Disabled => State::Disabled,
                },
            ),
    {
        let i: usize = pin.index();
        match state {
            AdcState::Enabled => {
                self.states[i] = State::Enabled(INIT_VALUE);
            },
            AdcState::Disabled => {
                self.states[i] = State::Disabled;
            },
        }
        Ok(())
    }

    /// Whether `pin` is enabled.
    pub fn get_state(&self, pin: AdcPin) -> (r: AdcState)
        ensures
            r == adc_state_of(self.state(pin)),
    {
        AdcState::from(self.states[pin.index()])
    }

    /// The analog input to convert for a read of `pin`, or the error for a
    /// disabled pin.
    pub fn read_request(&self, pin: AdcPin) -> (r: Result<u32, AdcReadError>)
        ensures
            self.state(pin) is Enabled ==> r == Ok::<u32, AdcReadError>(analog_input(pin)),
            self.state(pin) is Enabled ==> r == Ok::<u32, AdcReadError>(
                match pin {
                    AdcPin::A0 => 0u32,
                    AdcPin::A1 => 1u32,
                    AdcPin::A2 => 2u32,
                    AdcPin::A3 => 3u32,
                    AdcPin::A4 => 8u32,
                    AdcPin::A5 => 9u32,
                },
            ),
            self.state(pin) is Disabled ==> r == Err::<u32, AdcReadError>(
                AdcReadError((pin, AdcState::Disabled)),
            ),
    {
        match self.states[pin.index()] {
            State::Enabled(_) => Ok(
                match pin {
                    AdcPin::A0 => 0,
                    AdcPin::A1 => 1,
                    AdcPin::A2 => 2,
                    AdcPin::A3 => 3,
                    AdcPin::A4 => 8,
                    AdcPin::A5 => 9,
                },
            ),
            State::Disabled => Err(AdcReadError((pin, AdcState::Disabled))),
        }
    }

    /// The reading of `pin`, whose conversion left `fifo` in the result
    /// register; fails for a disabled pin.
    pub fn read(&self, pin: AdcPin, fifo: u32) -> (r: Result<u8, AdcReadError>)
        ensures
            self.state(pin) is Enabled ==> r == Ok::<u8, AdcReadError>(reading_of(fifo)),
            self.state(pin) is Disabled ==> r == Err::<u8, AdcReadError>(
                AdcReadError((pin, AdcState::Disabled)),
            ),
    {
        match self.states[pin.index()] {
            State::Enabled(_) => Ok(sample_to_reading(fifo)),
            State::Disabled => Err(AdcReadError((pin, AdcState::Disabled))),
        }
    }
}

/// The ADC pins are wired to analog inputs 0, 1, 2, 3, 8 and 9 in turn, so
/// no two pins sample the same input, and selecting a pin keeps every bit of
/// the multiplexer register above its low four.
pub proof fn law_adc_wiring(p: AdcPin, q: AdcPin, ssmux: u32)
    ensures
        analog_input(AdcPin::A0) == 0,
        analog_input(AdcPin::A1) == 1,
        analog_input(AdcPin::A2) == 2,
        analog_input(AdcPin::A3) == 3,
        analog_input(AdcPin::A4) == 8,
        analog_input(AdcPin::A5) == 9,
        p != q ==> analog_input(p) != analog_input(q),
        analog_input(p) < 16,
        ((ssmux & !0xfu32) + analog_input(p)) as u32 & !0xfu32 == ssmux & !0xfu32,
        ((ssmux & !0xfu32) + analog_input(p)) as u32 & 0xfu32 == analog_input(p),
{
    let x: u32 = analog_input(p);
    assert((ssmux & !0xfu32) + x <= u32::MAX && ((ssmux & !0xfu32) + x) as u32 & !0xfu32
        == ssmux & !0xfu32 && ((ssmux & !0xfu32) + x) as u32 & 0xfu32 == x) by (bit_vector)
        requires
            x < 16,
    ;
}

} // verus!
