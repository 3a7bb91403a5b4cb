//! The vocabulary of the LC-3 peripherals: pins, their states, and why an
//! access to one fails.
use vstd::prelude::*;

verus! {

/// Number of GPIO pins.
pub const GPIO_NUM_PINS: usize = 8;

/// One of the eight GPIO pins.
#[derive(Clone, Copy, Debug, PartialEq, Eq, Structural)]
pub enum GpioPin {
    G0,
    G1,
    G2,
    G3,
    G4,
    G5,
    G6,
    G7,
}

/// The position of `pin` among the GPIO pins.
pub open spec fn gpio_index(pin: GpioPin) -> int {
    match pin {
        GpioPin::G0 => 0,
        GpioPin::G1 => 1,
        GpioPin::G2 => 2,
        GpioPin::G3 => 3,
        GpioPin::G4 => 4,
        GpioPin::G5 => 5,
        GpioPin::G6 => 6,
        GpioPin::G7 => 7,
    }
}

impl GpioPin {
    /// The position of the pin among the GPIO pins.
    pub fn index(self) -> (r: usize)
        ensures
            r == gpio_index(self),
            r < GPIO_NUM_PINS,
    {
        match self {
            GpioPin::G0 => 0,
            GpioPin::G1 => 1,
            GpioPin::G2 => 2,
            GpioPin::G3 => 3,
            GpioPin::G4 => 4,
            GpioPin::G5 => 5,
            GpioPin::G6 => 6,
            GpioPin::G7 => 7,
        }
    }
}

/// The mode of a GPIO pin.
#[derive(Clone, Copy, Debug, PartialEq, Eq, Structural)]
pub enum GpioState {
    Input,
    Output,
    Interrupt,
    Disabled,
}

/// A read of a pin that is not an input: the pin and its mode.
#[derive(Clone, Copy, Debug, PartialEq, Eq)]
pub struct GpioReadError(pub (GpioPin, GpioState));

/// A write to a pin that is not an output: the pin and its mode.
#[derive(Clone, Copy, Debug, PartialEq, Eq)]
pub struct GpioWriteError(pub (GpioPin, GpioState));

/// A failure of the hardware while changing a pin's mode.
#[derive(Clone, Copy, Debug, PartialEq, Eq, Structural)]
pub struct GpioMiscError;

/// Number of ADC pins.
pub const ADC_NUM_PINS: usize = 6;

/// One of the six ADC pins.
#[derive(Clone, Copy, Debug, PartialEq, Eq, Structural)]
pub enum AdcPin {
    A0,
    A1,
    A2,
    A3,
    A4,
    A5,
}

/// The position of `pin` among the ADC pins.
pub open spec fn adc_index(pin: AdcPin) -> int {
    match pin {
        AdcPin::A0 => 0,
        AdcPin::A1 => 1,
        AdcPin::A2 => 2,
        AdcPin::A3 => 3,
        AdcPin::A4 => 4,
        AdcPin::A5 => 5,
    }
}

impl AdcPin {
    /// The position of the pin among the ADC pins.
    pub fn index(self) -> (r: usize)
        ensures
            r == adc_index(self),
            r < ADC_NUM_PINS,
    {
        match self {
            AdcPin::A0 => 0,
            AdcPin::A1 => 1,
            AdcPin::A2 => 2,
            AdcPin::A3 => 3,
            AdcPin::A4 => 4,
            AdcPin::A5 => 5,
        }
    }
}

/// Whether an ADC pin is enabled.
#[derive(Clone, Copy, Debug, PartialEq, Eq, Structural)]
pub enum AdcState {
    Enabled,
    Disabled,
}

/// A read of an ADC pin that is not enabled: the pin and its state.
#[derive(Clone, Copy, Debug, PartialEq, Eq)]
pub struct AdcReadError(pub (AdcPin, AdcState));

/// A failure of the hardware while changing an ADC pin's state.
#[derive(Clone, Copy, Debug, PartialEq, Eq, Structural)]
pub struct AdcMiscError;

/// Number of PWM pins.
pub const PWM_NUM_PINS: usize = 2;

/// One of the two PWM pins.
#[derive(Clone, Copy, Debug, PartialEq, Eq, Structural)]
pub enum PwmPin {
    P0,
    P1,
}

/// The position of `pin` among the PWM pins.
pub open spec fn pwm_index(pin: PwmPin) -> int {
    match pin {
        PwmPin::P0 => 0,
        PwmPin::P1 => 1,
    }
}

impl PwmPin {
    /// The position of the pin among the PWM pins.
    pub fn index(self) -> (r: usize)
        ensures
            r == pwm_index(self),
            r < PWM_NUM_PINS,
    {
        match self {
            PwmPin::P0 => 0,
            PwmPin::P1 => 1,
        }
    }
}

/// A PWM pin: disabled, or enabled with a period (never zero).
#[derive(Clone, Copy, Debug, PartialEq, Eq, Structural)]
pub enum PwmState {
    Enabled(u8),
    Disabled,
}

/// A period that a PWM pin could not take: the pin.
#[derive(Clone, Copy, Debug, PartialEq, Eq, Structural)]
pub struct PwmSetPeriodError(pub PwmPin);

/// A duty cycle that a PWM pin could not take: the pin.
#[derive(Clone, Copy, Debug, PartialEq, Eq, Structural)]
pub struct PwmSetDutyError(pub PwmPin);

/// Number of timers.
pub const NUM_TIMERS: usize = 2;

/// One of the two timers.
#[derive(Clone, Copy, Debug, PartialEq, Eq, Structural)]
pub enum TimerId {
    T0,
    T1,
}

/// The position of `timer` among the timers.
pub open spec fn timer_index(timer: TimerId) -> int {
    match timer {
        TimerId::T0 => 0,
        TimerId::T1 => 1,
    }
}

impl TimerId {
    /// The position of the timer among the timers.
    pub fn index(self) -> (r: usize)
        ensures
            r == timer_index(self),
            r < NUM_TIMERS,
    {
        match self {
            TimerId::T0 => 0,
            TimerId::T1 => 1,
        }
    }
}

/// A timer: disabled, or running with a period in milliseconds (never zero).
#[derive(Clone, Copy, Debug, PartialEq, Eq, Structural)]
pub enum TimerState {
    Disabled,
    WithPeriod(u16),
}

/// Whether a timer fires once or repeatedly.
#[derive(Clone, Copy, Debug, PartialEq, Eq, Structural)]
pub enum TimerMode {
    SingleShot,
    Repeated,
}

/// Each pin and timer has its own position, in the order of its name:
/// `G0` to `G7` at 0 to 7, `A0` to `A5` at 0 to 5, `P0` and `P1` at 0 and 1,
/// `T0` and `T1` at 0 and 1; so no two share the state kept for them.
pub proof fn law_positions(g: GpioPin, h: GpioPin, a: AdcPin, b: AdcPin)
    ensures
        gpio_index(GpioPin::G0) == 0 && gpio_index(GpioPin::G1) == 1 && gpio_index(GpioPin::G2)
            == 2 && gpio_index(GpioPin::G3) == 3,
        gpio_index(GpioPin::G4) == 4 && gpio_index(GpioPin::G5) == 5 && gpio_index(GpioPin::G6)
            == 6 && gpio_index(GpioPin::G7) == 7,
        adc_index(AdcPin::A0) == 0 && adc_index(AdcPin::A1) == 1 && adc_index(AdcPin::A2) == 2,
        adc_index(AdcPin::A3) == 3 && adc_index(AdcPin::A4) == 4 && adc_index(AdcPin::A5) == 5,
        pwm_index(PwmPin::P0) == 0 && pwm_index(PwmPin::P1) == 1,
        timer_index(TimerId::T0) == 0 && timer_index(TimerId::T1) == 1,
        g != h ==> gpio_index(g) != gpio_index(h),
        a != b ==> adc_index(a) != adc_index(b),
{
}

} // verus!
