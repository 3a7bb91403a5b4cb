use std::cell::RefCell;

use lc3_tm4c::generic_gpio::{
    transition_plan, FlagBasedInterrupts, Gpio, InterruptSolution, Interrupts, IoPin, OwnedOrMut,
    Pin, PinAction, PinReadError, PinWriteError, PollForInterrupts, SelfContainedInterruptSolution,
};
use lc3_tm4c::lc3_peripherals::{GpioMiscError, GpioPin, GpioReadError, GpioState, GpioWriteError};
use lc3_tm4c::peripherals::gpio::{physical_pins, State};
use lc3_tm4c::peripherals::gpio_singleshot;
use lc3_tm4c::peripherals::gpio_singleshot::{data_after_drive, pin_location, Port};
use lc3_tm4c::peripherals_generic::gpio_impl;
use lc3_tm4c::peripherals_tm4c::gpio as tm4c_gpio;
use lc3_tm4c::peripherals_tm4c::gpio::{hw_mode_after, HwMode, InterruptPort};

#[test]
fn shim_pins_start_as_outputs_then_inputs() {
    let p = physical_pins::new();
    assert_eq!(p.get_pin_state(GpioPin::G0), GpioState::Output);
    assert_eq!(p.get_pin_state(GpioPin::G3), GpioState::Output);
    assert_eq!(p.get_pin_state(GpioPin::G4), GpioState::Input);
    assert_eq!(p.get_pin(GpioPin::G7), Some(false));
    assert_eq!(p.flags, [None; 8]);
}

#[test]
fn shim_set_pin_drives_inputs_only() {
    let mut p = physical_pins::new();
    assert_eq!(p.set_pin(GpioPin::G5, true), Some(()));
    assert_eq!(p.read(GpioPin::G5), Ok(true));
    assert_eq!(p.set_pin(GpioPin::G0, true), None);
    assert_eq!(p.get_pin(GpioPin::G0), Some(false));
}

#[test]
fn shim_rising_edge_raises_interrupt() {
    let mut p = physical_pins::new();
    p.set_state(GpioPin::G2, GpioState::Interrupt).unwrap();
    p.register_interrupt_flag(GpioPin::G2, false);
    assert!(!p.interrupt_occurred(GpioPin::G2));
    assert_eq!(p.set_pin(GpioPin::G2, true), Some(()));
    assert!(p.interrupt_occurred(GpioPin::G2));
    assert_eq!(p.get_pin(GpioPin::G2), Some(true));
    assert_eq!(p.get_pin_state(GpioPin::G2), GpioState::Interrupt);
    p.reset_interrupt_flag(GpioPin::G2);
    assert!(!p.interrupt_occurred(GpioPin::G2));
}

#[test]
fn shim_interrupt_needs_interrupt_mode() {
    let mut p = physical_pins::new();
    p.register_interrupt_flag(GpioPin::G1, true);
    assert!(!p.interrupts_enabled(GpioPin::G1));
    assert!(!p.interrupt_occurred(GpioPin::G1));
    p.set_state(GpioPin::G1, GpioState::Interrupt).unwrap();
    assert!(p.interrupts_enabled(GpioPin::G1));
    assert!(p.interrupt_occurred(GpioPin::G1));
}

#[test]
fn shim_read_and_write_errors() {
    let mut p = physical_pins::new();
    assert_eq!(p.read(GpioPin::G0), Err(GpioReadError((GpioPin::G0, GpioState::Output))));
    assert_eq!(p.write(GpioPin::G4, true), Err(GpioWriteError((GpioPin::G4, GpioState::Input))));
    p.set_state(GpioPin::G6, GpioState::Disabled).unwrap();
    assert_eq!(p.get_pin(GpioPin::G6), None);
    assert_eq!(p.read(GpioPin::G6), Err(GpioReadError((GpioPin::G6, GpioState::Disabled))));
    assert_eq!(p.write(GpioPin::G0, true), Ok(()));
    assert_eq!(p.get_pin(GpioPin::G0), Some(true));
    assert_eq!(p.get_state(GpioPin::G0), GpioState::Output);
}

#[test]
fn shim_set_state_starts_low() {
    let mut p = physical_pins::new();
    p.write(GpioPin::G0, true).unwrap();
    p.set_state(GpioPin::G0, GpioState::Input).unwrap();
    assert_eq!(p.states[0], State::Input(false));
}

#[test]
fn state_converts_to_its_mode() {
    assert_eq!(GpioState::from(State::Input(true)), GpioState::Input);
    assert_eq!(GpioState::from(State::Output(false)), GpioState::Output);
    assert_eq!(GpioState::from(State::Interrupt(true)), GpioState::Interrupt);
    assert_eq!(GpioState::from(State::Disabled), GpioState::Disabled);
}

#[test]
fn singleshot_set_pin_sets_inputs_only() {
    let mut p = gpio_singleshot::physical_pins::new();
    assert_eq!(p.set_pin(GpioPin::G1, true), None);
    assert_eq!(p.get_pin(GpioPin::G1), Some(false));
    assert_eq!(p.set_pin(GpioPin::G4, true), Some(()));
    assert_eq!(p.get_pin(GpioPin::G4), Some(true));
    p.set_state(GpioPin::G3, GpioState::Disabled).unwrap();
    assert_eq!(p.set_pin(GpioPin::G3, true), None);
}

#[test]
fn singleshot_pin_locations() {
    assert_eq!(pin_location(GpioPin::G0), (Port::A, 1));
    assert_eq!(pin_location(GpioPin::G3), (Port::A, 8));
    assert_eq!(pin_location(GpioPin::G4), (Port::E, 1));
    assert_eq!(pin_location(GpioPin::G6), (Port::E, 4));
}

#[test]
fn singleshot_drive_sets_or_clears_the_bit() {
    assert_eq!(data_after_drive(0x0F, 0x00, 0x4, true), Some(0x04));
    assert_eq!(data_after_drive(0x0F, 0xFF, 0x4, false), Some(0xFB));
    assert_eq!(data_after_drive(0x0B, 0x00, 0x4, true), None);
}

#[test]
fn tm4c_set_pin_sets_inputs_and_interrupt_pins_only() {
    let mut p = tm4c_gpio::physical_pins::new();
    assert_eq!(p.write(GpioPin::G5, true), Ok(()));
    assert_eq!(p.get_pin_state(GpioPin::G5), GpioState::Input);
    assert_eq!(p.get_pin(GpioPin::G5), Some(true));
    assert_eq!(p.set_pin(GpioPin::G0, true), None);
    assert_eq!(p.get_pin(GpioPin::G0), Some(false));
    p.set_state(GpioPin::G1, GpioState::Interrupt).unwrap();
    assert_eq!(p.set_pin(GpioPin::G1, true), Some(()));
    assert_eq!(p.get_pin(GpioPin::G1), Some(true));
    assert_eq!(p.get_pin_state(GpioPin::G1), GpioState::Interrupt);
}

#[test]
fn tm4c_write_drives_output_pins() {
    let mut p = tm4c_gpio::physical_pins::new();
    assert_eq!(p.get_pin_state(GpioPin::G0), GpioState::Output);
    assert_eq!(p.write(GpioPin::G0, true), Ok(()));
    assert_eq!(p.get_pin_state(GpioPin::G0), GpioState::Output);
    assert_eq!(p.get_pin(GpioPin::G0), Some(true));
    assert_eq!(p.write(GpioPin::G0, false), Ok(()));
    assert_eq!(p.get_pin(GpioPin::G0), Some(false));
}

#[test]
fn tm4c_disabled_pin_stays_disabled() {
    let mut p = tm4c_gpio::physical_pins::new();
    p.set_state(GpioPin::G2, GpioState::Disabled).unwrap();
    assert_eq!(p.write(GpioPin::G2, true), Ok(()));
    assert_eq!(p.get_pin_state(GpioPin::G2), GpioState::Disabled);
    assert_eq!(p.get_pin(GpioPin::G2), None);
    assert_eq!(p.read(GpioPin::G2), Err(GpioReadError((GpioPin::G2, GpioState::Disabled))));
}

#[test]
fn tm4c_port_f_interrupts() {
    let mut p = tm4c_gpio::physical_pins::new();
    for pin in [GpioPin::G0, GpioPin::G1, GpioPin::G2] {
        p.set_state(pin, GpioState::Interrupt).unwrap();
    }
    p.register_interrupt_flags([false; 8]);
    assert_eq!(p.record_interrupts(InterruptPort::F, 0x12 | 0x100), 0x12);
    assert!(p.interrupt_occurred(GpioPin::G0));
    assert!(!p.interrupt_occurred(GpioPin::G1));
    assert!(p.interrupt_occurred(GpioPin::G2));
    assert_eq!(p.flags, Some([true, false, true, false, false, false, false, false]));
}

#[test]
fn tm4c_port_b_interrupts() {
    let mut p = tm4c_gpio::physical_pins::new();
    p.register_interrupt_flags([false; 8]);
    assert_eq!(p.record_interrupts(InterruptPort::B, 0xFF), 0x1F);
    assert_eq!(p.pending, [false, false, false, true, true, true, true, true]);
    assert!(!p.interrupt_occurred(GpioPin::G3));
    p.set_state(GpioPin::G3, GpioState::Interrupt).unwrap();
    assert!(p.interrupt_occurred(GpioPin::G3));
    p.reset_interrupt_flag(GpioPin::G3);
    assert!(!p.interrupt_occurred(GpioPin::G3));
    assert!(p.interrupts_enabled(GpioPin::G3));
}

#[test]
fn tm4c_registering_flags_forgets_latched_interrupts() {
    let mut p = tm4c_gpio::physical_pins::new();
    p.set_state(GpioPin::G7, GpioState::Interrupt).unwrap();
    p.record_interrupts(InterruptPort::B, 0x10);
    p.register_interrupt_flags([false; 8]);
    assert!(!p.interrupt_occurred(GpioPin::G7));
}

#[test]
fn tm4c_hardware_mode_follows_requests() {
    assert_eq!(hw_mode_after(HwMode::Output, GpioState::Input), HwMode::Input);
    assert_eq!(hw_mode_after(HwMode::Input, GpioState::Output), HwMode::Output);
    assert_eq!(hw_mode_after(HwMode::Output, GpioState::Interrupt), HwMode::Interrupt);
    assert_eq!(hw_mode_after(HwMode::Interrupt, GpioState::Disabled), HwMode::Interrupt);
}

#[test]
fn generic_impl_serves_input_and_output_only() {
    let mut p = gpio_impl::physical_pins::new(());
    assert_eq!(p.get_state(GpioPin::G0), GpioState::Input);
    p.set_state(GpioPin::G0, GpioState::Output).unwrap();
    assert_eq!(p.get_state(GpioPin::G0), GpioState::Output);
    p.set_state(GpioPin::G0, GpioState::Interrupt).unwrap();
    assert_eq!(p.get_state(GpioPin::G0), GpioState::Output);
    assert_eq!(p.write(GpioPin::G0, true), Ok(()));
    assert_eq!(p.write(GpioPin::G1, true), Err(GpioWriteError((GpioPin::G1, GpioState::Input))));
    assert_eq!(p.read(GpioPin::G1), Ok(false));
    assert!(p.interrupt_occurred(GpioPin::G1));
    assert!(p.interrupts_enabled(GpioPin::G1));
    let d: gpio_impl::physical_pins<()> = gpio_impl::physical_pins::default();
    assert_eq!(d.get_state(GpioPin::G0), GpioState::Output);
    assert!(d.pin_block.is_none());
}

/// A pin that records what was done to it.
struct MockPin;

#[derive(Default)]
struct Log {
    calls: RefCell<Vec<&'static str>>,
    fail_on: Option<&'static str>,
    level: bool,
    pending: bool,
}

impl Log {
    fn call(&self, what: &'static str) -> Result<(), ()> {
        self.calls.borrow_mut().push(what);
        if self.fail_on == Some(what) {
            Err(())
        } else {
            Ok(())
        }
    }
}

impl IoPin for MockPin {
    type Ctx = Log;
    type Disabled = ();
    type Input = bool;
    type Output = bool;
    type Error = ();

    // Only the verifier reads these functions; they are never called.
    fn drives_high(o: &bool) -> bool {
        *o
    }
    fn samples(i: &bool, high: bool) -> bool {
        *i == high
    }
    fn interrupts_enabled(_i: &bool) -> bool {
        unreachable!()
    }

    fn disabled_to_input(_d: (), ctx: &mut Log) -> Result<bool, ()> {
        ctx.call("disabled_to_input").map(|_| false)
    }
    fn disabled_to_output(_d: (), ctx: &mut Log) -> Result<bool, ()> {
        ctx.call("disabled_to_output").map(|_| true)
    }
    fn input_to_disabled(_i: bool, ctx: &mut Log) -> Result<(), ()> {
        ctx.call("input_to_disabled")
    }
    fn input_to_output(_i: bool, ctx: &mut Log) -> Result<bool, ()> {
        ctx.call("input_to_output").map(|_| true)
    }
    fn output_to_disabled(_o: bool, ctx: &mut Log) -> Result<(), ()> {
        ctx.call("output_to_disabled")
    }
    fn output_to_input(_o: bool, ctx: &mut Log) -> Result<bool, ()> {
        ctx.call("output_to_input").map(|_| false)
    }
    fn drive_output(o: &mut bool, high: bool) -> Result<(), ()> {
        *o = high;
        Ok(())
    }
    fn input_is_high(i: &bool) -> Result<bool, ()> {
        Ok(*i)
    }
}

impl Interrupts for MockPin {
    fn enable_interrupts(_i: &mut bool, ctx: &mut Log) -> Result<(), ()> {
        ctx.call("enable_interrupts")
    }
    fn disable_interrupts(_i: &mut bool, ctx: &mut Log) -> Result<(), ()> {
        ctx.call("disable_interrupts")
    }
}

impl PollForInterrupts for MockPin {
    // Only the verifier reads these two functions; they are never called.
    fn reports_pending(_p: &bool, ctx: &Log, pending: bool) -> bool {
        ctx.pending == pending
    }
    fn interrupt_cleared(_p: &bool, ctx: &Log) -> bool {
        !ctx.pending
    }

    fn interrupt_pending(_p: &bool, ctx: &Log) -> bool {
        ctx.pending
    }
    fn clear_interrupt(_p: &mut bool, ctx: &mut Log) {
        ctx.pending = false;
    }
}

#[test]
fn pin_to_output_is_driven_low() {
    let mut ctx = Log::default();
    let mut pin: Pin<MockPin> = Pin::Disabled(());
    assert_eq!(pin.set_state(GpioState::Output, &mut ctx), Ok(()));
    assert_eq!(pin.get_state(), GpioState::Output);
    assert!(matches!(pin, Pin::Output(false)));
    assert_eq!(*ctx.calls.borrow(), vec!["disabled_to_output"]);
}

#[test]
fn pin_leaves_interrupt_mode_after_disabling_interrupts() {
    let mut ctx = Log::default();
    let mut pin: Pin<MockPin> = Pin::Interrupt(true);
    assert_eq!(pin.set_state(GpioState::Disabled, &mut ctx), Ok(()));
    assert_eq!(pin.get_state(), GpioState::Disabled);
    assert_eq!(*ctx.calls.borrow(), vec!["disable_interrupts", "input_to_disabled"]);
}

#[test]
fn pin_same_mode_does_nothing() {
    let mut ctx = Log::default();
    let mut pin: Pin<MockPin> = Pin::Input(true);
    assert_eq!(pin.set_state(GpioState::Input, &mut ctx), Ok(()));
    assert!(ctx.calls.borrow().is_empty());
    assert_eq!(pin.read(), Ok(true));
}

#[test]
fn pin_failed_conversion_leaves_it_in_transition() {
    let mut ctx = Log { fail_on: Some("output_to_input"), ..Log::default() };
    let mut pin: Pin<MockPin> = Pin::Output(true);
    assert_eq!(pin.set_state(GpioState::Interrupt, &mut ctx), Err(GpioMiscError));
    assert!(matches!(pin, Pin::Transitioning));
}

#[test]
fn pin_read_and_write_by_mode() {
    let mut pin: Pin<MockPin> = Pin::Disabled(());
    assert_eq!(pin.read(), Err(PinReadError::IsDisabled));
    assert_eq!(pin.write(true), Err(PinWriteError::IsDisabled));
    let mut pin: Pin<MockPin> = Pin::Output(false);
    assert_eq!(pin.read(), Err(PinReadError::IsInOutputMode));
    assert_eq!(pin.write(true), Ok(()));
    assert!(matches!(pin, Pin::Output(true)));
    let mut pin: Pin<MockPin> = Pin::Input(false);
    assert_eq!(pin.write(true), Err(PinWriteError::IsInInputMode));
    let mut pin: Pin<MockPin> = Pin::Interrupt(true);
    assert_eq!(pin.write(true), Err(PinWriteError::IsInInterruptMode));
    assert_eq!(pin.read(), Ok(true));
}

#[test]
fn pin_polls_only_in_interrupt_mode() {
    let mut ctx = Log { pending: true, ..Log::default() };
    let pin: Pin<MockPin> = Pin::Input(false);
    assert!(!pin.interrupt_pending(&ctx));
    let mut pin: Pin<MockPin> = Pin::Interrupt(false);
    assert!(pin.interrupt_pending(&ctx));
    pin.clear_interrupt(&mut ctx);
    assert!(!pin.interrupt_pending(&ctx));
}

#[test]
fn plans_between_modes() {
    assert_eq!(
        transition_plan(GpioState::Interrupt, GpioState::Output),
        vec![PinAction::DisableInterrupts, PinAction::InputToOutput, PinAction::SetLow]
    );
    assert_eq!(
        transition_plan(GpioState::Disabled, GpioState::Interrupt),
        vec![PinAction::DisabledToInput, PinAction::EnableInterrupts]
    );
    assert_eq!(transition_plan(GpioState::Output, GpioState::Input), vec![PinAction::OutputToInput]);
    assert!(transition_plan(GpioState::Disabled, GpioState::Disabled).is_empty());
}

type MockGpio<'c, I> = Gpio<'c, MockPin, MockPin, MockPin, MockPin, MockPin, MockPin, MockPin, MockPin, I, Log>;

#[test]
fn gpio_with_flags_dispatches_to_each_pin() {
    let mut g = MockGpio::<'_, FlagBasedInterrupts>::new_with_context(
        (), (), (), (), (), (), (), (),
        [false, false, true, false, false, false, false, false],
        OwnedOrMut::Owned(Log::default()),
    );
    assert_eq!(g.get_state(GpioPin::G3), GpioState::Disabled);
    assert_eq!(g.set_state(GpioPin::G3, GpioState::Output), Ok(()));
    assert_eq!(g.get_state(GpioPin::G3), GpioState::Output);
    assert_eq!(g.get_state(GpioPin::G4), GpioState::Disabled);
    assert_eq!(g.write(GpioPin::G3, true), Ok(()));
    assert_eq!(g.read(GpioPin::G3), Err(PinReadError::IsInOutputMode));
    assert_eq!(g.write(GpioPin::G4, true), Err(PinWriteError::IsDisabled));
    g.set_state(GpioPin::G2, GpioState::Interrupt).unwrap();
    assert!(g.interrupt_occurred(GpioPin::G2));
    g.reset_interrupt_flag(GpioPin::G2);
    assert!(!g.interrupt_occurred(GpioPin::G2));
}

#[test]
fn gpio_polling_its_pins() {
    let mut ctx = Log { pending: true, ..Log::default() };
    let mut g = MockGpio::<'_, SelfContainedInterruptSolution>::new_with_context(
        (), (), (), (), (), (), (), (),
        OwnedOrMut::Mut(&mut ctx),
    );
    g.set_state(GpioPin::G6, GpioState::Interrupt).unwrap();
    assert!(g.interrupt_occurred(GpioPin::G6));
    g.reset_interrupt_flag(GpioPin::G6);
    assert!(!g.interrupt_occurred(GpioPin::G6));
    drop(g);
    assert_eq!(*ctx.calls.borrow(), vec!["disabled_to_input", "enable_interrupts"]);
}

#[test]
fn flag_solution_reads_and_clears_flags() {
    let mut ctx = Log::default();
    let mut g = MockGpio::<'_, FlagBasedInterrupts>::new_with_context(
        (), (), (), (), (), (), (), (),
        [true; 8],
        OwnedOrMut::Mut(&mut ctx),
    );
    let mut flags = FlagBasedInterrupts([false, true, false, false, false, false, false, false]);
    assert!(flags.interrupt_pending(GpioPin::G1, &g.pins, &Log::default()));
    flags.clear_interrupt(GpioPin::G1, &mut g.pins, &mut Log::default());
    assert_eq!(flags.0, [false; 8]);
}
