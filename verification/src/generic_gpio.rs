//! A GPIO driver over pins whose mode lives in their type.
//!
//! A pin is disabled, an input, an input with interrupts enabled, or an
//! output. The board support says how to convert a pin from one mode to
//! another (`IoPin`), how to turn its interrupts on and off (`Interrupts`)
//! and, where it can, how to poll them (`PollForInterrupts`). Moving a pin
//! from one mode to another is the sequence of conversions that
//! `transition_plan` gives: leaving interrupt mode always disables interrupts
//! first, and a pin that becomes an output is always driven low. A pin whose
//! conversion fails is left in transition, with no mode. The board support
//! tells the level each output drives and whether an input's interrupts are
//! on; a pin converts out of input mode only with its interrupts off.
use vstd::prelude::*;
use crate::lc3_peripherals::{GpioMiscError, GpioPin, GpioState};

verus! {

/// A value owned, or borrowed mutably.
pub enum OwnedOrMut<'a, T> {
    Owned(T),
    Mut(&'a mut T),
}

impl<'a, T> OwnedOrMut<'a, T> {
    /// The value held or borrowed.
    pub open spec fn value(&self) -> T {
        match self {
            OwnedOrMut::Owned(o) => *o,
            OwnedOrMut::Mut(m) => **m,
        }
    }

    /// The value held or borrowed, mutably.
    pub fn as_mut(&mut self) -> (r: &mut T)
        ensures
            *r == old(self).value(),
            final(self).value() == *final(r),
    {
        match self {
            OwnedOrMut::Owned(o) => o,
            OwnedOrMut::Mut(m) => m,
        }
    }

    /// The value held or borrowed.
    pub fn as_ref(&self) -> (r: &T)
        ensures
            *r == self.value(),
    {
        match self {
            OwnedOrMut::Owned(o) => o,
            OwnedOrMut::Mut(m) => m,
        }
    }
}

/// A conversion or operation on a pin, performed by the board support.
#[derive(Clone, Copy, Debug, PartialEq, Eq, Structural)]
pub enum PinAction {
    DisabledToInput,
    DisabledToOutput,
    InputToDisabled,
    InputToOutput,
    OutputToDisabled,
    OutputToInput,
    EnableInterrupts,
    DisableInterrupts,
    SetLow,
}

/// Why a pin could not be read.
#[derive(Clone, Copy, Debug, PartialEq, Eq, Structural)]
pub enum PinReadError {
    IsDisabled,
    IsInOutputMode,
    Other(GpioMiscError),
}

/// Why a pin could not be written.
#[derive(Clone, Copy, Debug, PartialEq, Eq, Structural)]
pub enum PinWriteError {
    IsDisabled,
    IsInInputMode,
    IsInInterruptMode,
    Other(GpioMiscError),
}

/// The mode a pin is in after `action`, when `action` applies in `mode`.
/// Interrupts are enabled and disabled on a pin held as an input.
pub open spec fn after_action(mode: GpioState, action: PinAction) -> Option<GpioState> {
    match (mode, action) {
        (GpioState::Disabled, PinAction::DisabledToInput) => Some(GpioState::Input),
        (GpioState::Disabled, PinAction::DisabledToOutput) => Some(GpioState::Output),
        (GpioState::Input, PinAction::InputToDisabled) => Some(GpioState::Disabled),
        (GpioState::Input, PinAction::InputToOutput) => Some(GpioState::Output),
        (GpioState::Input, PinAction::EnableInterrupts) => Some(GpioState::Interrupt),
        (GpioState::Interrupt, PinAction::DisableInterrupts) => Some(GpioState::Input),
        (GpioState::Output, PinAction::OutputToDisabled) => Some(GpioState::Disabled),
        (GpioState::Output, PinAction::OutputToInput) => Some(GpioState::Input),
        (GpioState::Output, PinAction::SetLow) => Some(GpioState::Output),
        _ => None,
    }
}

/// The mode a pin ends in after `plan`, when every action applies in turn.
pub open spec fn after_plan(mode: GpioState, plan: Seq<PinAction>) -> Option<GpioState>
    decreases plan.len(),
{
    if plan.len() == 0 {
        Some(mode)
    } else {
        match after_action(mode, plan[0]) {
            Some(next) => after_plan(next, plan.drop_first()),
            None => None,
        }
    }
}

/// The conversions that move a pin from mode `from` to mode `to`.
pub open spec fn plan_for(from: GpioState, to: GpioState) -> Seq<PinAction> {
    match (from, to) {
        (GpioState::Output, GpioState::Disabled) => seq![PinAction::OutputToDisabled],
        (GpioState::Input, GpioState::Disabled) => seq![PinAction::InputToDisabled],
        (GpioState::Interrupt, GpioState::Disabled) => seq![
            PinAction::DisableInterrupts,
            PinAction::InputToDisabled,
        ],
        (GpioState::Disabled, GpioState::Output) => seq![
            PinAction::DisabledToOutput,
            PinAction::SetLow,
        ],
        (GpioState::Input, GpioState::Output) => seq![PinAction::InputToOutput, PinAction::SetLow],
        (GpioState::Interrupt, GpioState::Output) => seq![
            PinAction::DisableInterrupts,
            PinAction::InputToOutput,
            PinAction::SetLow,
        ],
        (GpioState::Disabled, GpioState::Input) => seq![PinAction::DisabledToInput],
        (GpioState::Output, GpioState::Input) => seq![PinAction::OutputToInput],
        (GpioState::Interrupt, GpioState::Input) => seq![PinAction::DisableInterrupts],
        (GpioState::Disabled, GpioState::Interrupt) => seq![
            PinAction::DisabledToInput,
            PinAction::EnableInterrupts,
        ],
        (GpioState::Input, GpioState::Interrupt) => seq![PinAction::EnableInterrupts],
        (GpioState::Output, GpioState::Interrupt) => seq![
            PinAction::OutputToInput,
            PinAction::EnableInterrupts,
        ],
        _ => seq![],
    }
}

/// The conversions, in order, that move a pin from mode `from` to mode `to`.
pub fn transition_plan(from: GpioState, to: GpioState) -> (r: Vec<PinAction>)
    ensures
        r@ == plan_for(from, to),
{
    match (from, to) {
        (GpioState::Output, GpioState::Disabled) => vec![PinAction::OutputToDisabled],
        (GpioState::Input, GpioState::Disabled) => vec![PinAction::InputToDisabled],
        (GpioState::Interrupt, GpioState::Disabled) => vec![
            PinAction::DisableInterrupts,
            PinAction::InputToDisabled,
        ],
        (GpioState::Disabled, GpioState::Output) => vec![
            PinAction::DisabledToOutput,
            PinAction::SetLow,
        ],
        (GpioState::Input, GpioState::Output) => vec![PinAction::InputToOutput, PinAction::SetLow],
        (GpioState::Interrupt, GpioState::Output) => vec![
            PinAction::DisableInterrupts,
            PinAction::InputToOutput,
            PinAction::SetLow,
        ],
        (GpioState::Disabled, GpioState::Input) => vec![PinAction::DisabledToInput],
        (GpioState::Output, GpioState::Input) => vec![PinAction::OutputToInput],
        (GpioState::Interrupt, GpioState::Input) => vec![PinAction::DisableInterrupts],
        (GpioState::Disabled, GpioState::Interrupt) => vec![
            PinAction::DisabledToInput,
            PinAction::EnableInterrupts,
        ],
        (GpioState::Input, GpioState::Interrupt) => vec![PinAction::EnableInterrupts],
        (GpioState::Output, GpioState::Interrupt) => vec![
            PinAction::OutputToInput,
            PinAction::EnableInterrupts,
        ],
        _ => vec![],
    }
}

/// How the board support converts a pin between its modes, and drives and
/// samples it. Each conversion consumes the pin in one mode and gives it back
/// in the other, or fails. A pin leaves input mode only with its interrupts
/// off, and comes into it with them off.
pub trait IoPin {
    type Ctx;

    type Disabled;

    type Input;

    type Output;

    type Error;

    /// Whether the output drives its line high.
    spec fn drives_high(o: &Self::Output) -> bool;

    /// Whether the input's interrupts are on.
    spec fn interrupts_enabled(i: &Self::Input) -> bool;

    fn disabled_to_input(d: Self::Disabled, ctx: &mut Self::Ctx) -> (r: Result<Self::Input, Self::Error>)
        ensures
            r matches Ok(i) ==> !Self::interrupts_enabled(&i),
    ;

    fn disabled_to_output(d: Self::Disabled, ctx: &mut Self::Ctx) -> Result<Self::Output, Self::Error>;

    fn input_to_disabled(i: Self::Input, ctx: &mut Self::Ctx) -> Result<Self::Disabled, Self::Error>
        requires
            !Self::interrupts_enabled(&i),
    ;

    fn input_to_output(i: Self::Input, ctx: &mut Self::Ctx) -> Result<Self::Output, Self::Error>
        requires
            !Self::interrupts_enabled(&i),
    ;

    fn output_to_disabled(o: Self::Output, ctx: &mut Self::Ctx) -> Result<Self::Disabled, Self::Error>;

    fn output_to_input(o: Self::Output, ctx: &mut Self::Ctx) -> (r: Result<Self::Input, Self::Error>)
        ensures
            r matches Ok(i) ==> !Self::interrupts_enabled(&i),
    ;

    /// Drives the output high or low.
    fn drive_output(o: &mut Self::Output, high: bool) -> (r: Result<(), Self::Error>)
        ensures
            r is Ok ==> Self::drives_high(&*final(o)) == high,
    ;

    /// Whether sampling the input may give `high`: the input's line is at
    /// that level.
    spec fn samples(i: &Self::Input, high: bool) -> bool;

    /// Samples the input: whether it is high.
    fn input_is_high(i: &Self::Input) -> (r: Result<bool, Self::Error>)
        ensures
            r matches Ok(b) ==> Self::samples(i, b),
    ;
}

/// How the board support turns a pin's interrupts on and off.
pub trait Interrupts: IoPin {
    fn enable_interrupts(i: &mut Self::Input, ctx: &mut Self::Ctx) -> (r: Result<(), Self::Error>)
        ensures
            r is Ok ==> Self::interrupts_enabled(&*final(i)),
    ;

    fn disable_interrupts(i: &mut Self::Input, ctx: &mut Self::Ctx) -> (r: Result<(), Self::Error>)
        ensures
            r is Ok ==> !Self::interrupts_enabled(&*final(i)),
    ;
}

/// How the board support polls and clears a pin's interrupt.
pub trait PollForInterrupts: IoPin {
    /// Whether polling the input may answer `pending`: an interrupt of the
    /// pin is pending exactly when `pending` holds.
    spec fn reports_pending(p: &Self::Input, ctx: &Self::Ctx, pending: bool) -> bool;

    /// No interrupt of the input is pending.
    spec fn interrupt_cleared(p: &Self::Input, ctx: &Self::Ctx) -> bool;

    /// Whether an interrupt of the input is pending.
    fn interrupt_pending(p: &Self::Input, ctx: &Self::Ctx) -> (r: bool)
        ensures
            Self::reports_pending(p, ctx, r),
    ;

    /// Clears the pending interrupt; the interrupts stay on or off.
    fn clear_interrupt(p: &mut Self::Input, ctx: &mut Self::Ctx)
        ensures
            Self::interrupts_enabled(&*final(p)) == Self::interrupts_enabled(&*old(p)),
            Self::interrupt_cleared(&*final(p), &*final(ctx)),
    ;
}

/// A pin in one of its modes, or in transition between two.
pub enum Pin<P: Interrupts> {
    Disabled(P::Disabled),
    Input(P::Input),
    Interrupt(P::Input),
    Output(P::Output),
    Transitioning,
}

/// Where a plan that can be followed from `mode` leads after its first step.
pub proof fn lemma_after_plan_step(mode: GpioState, plan: Seq<PinAction>, to: GpioState)
    requires
        plan.len() > 0,
        after_plan(mode, plan) == Some(to),
    ensures
        after_action(mode, plan[0]) is Some,
        after_plan(after_action(mode, plan[0])->0, plan.drop_first()) == Some(to),
{
}

impl<P: Interrupts> Pin<P> {
    /// The mode of the pin; none while in transition.
    pub open spec fn mode(&self) -> Option<GpioState> {
        match self {
            Pin::Disabled(_) => Some(GpioState::Disabled),
            Pin::Input(_) => Some(GpioState::Input),
            Pin::Interrupt(_) => Some(GpioState::Interrupt),
            Pin::Output(_) => Some(GpioState::Output),
            Pin::Transitioning => None,
        }
    }

    /// An input has its interrupts off, a pin in interrupt mode has them on.
    pub open spec fn wf(&self) -> bool {
        match self {
            Pin::Input(i) => !P::interrupts_enabled(i),
            Pin::Interrupt(i) => P::interrupts_enabled(i),
            _ => true,
        }
    }

    /// Whether sampling the pin may give `high`: only an input or interrupt
    /// pin is sampled.
    pub open spec fn samples(&self, high: bool) -> bool {
        match self {
            Pin::Input(i) => P::samples(i, high),
            Pin::Interrupt(i) => P::samples(i, high),
            _ => false,
        }
    }

    /// The level an output pin drives: high or low; none in another mode.
    pub open spec fn output_level(&self) -> Option<bool> {
        match self {
            Pin::Output(o) => Some(P::drives_high(o)),
            _ => None,
        }
    }

    /// Performs `action` on the pin. On failure the pin is left in
    /// transition.
    pub fn apply(&mut self, action: PinAction, ctx: &mut P::Ctx) -> (r: Result<(), GpioMiscError>)
        requires
            old(self).mode() is Some,
            old(self).wf(),
            after_action(old(self).mode()->0, action) is Some,
        ensures
            r is Ok ==> final(self).mode() == after_action(old(self).mode()->0, action),
            r is Ok ==> final(self).wf(),
            r is Ok && action == PinAction::SetLow ==> final(self).output_level() == Some(false),
            r is Err ==> final(self).mode() is None,
    {
        let mut cur: Pin<P> = Pin::Transitioning;
        std::mem::swap(self, &mut cur);
        match action {
            PinAction::DisabledToInput => {
                if let Pin::Disabled(d) = cur {
                    match P::disabled_to_input(d, ctx) {
                        Ok(i) => {
                            *self = Pin::Input(i);
                            return Ok(());
                        },
                        Err(_) => return Err(GpioMiscError),
                    }
                }
            },
            PinAction::DisabledToOutput => {
                if let Pin::Disabled(d) = cur {
                    match P::disabled_to_output(d, ctx) {
                        Ok(o) => {
                            *self = Pin::Output(o);
                            return Ok(());
                        },
                        Err(_) => return Err(GpioMiscError),
                    }
                }
            },
            PinAction::InputToDisabled => {
                if let Pin::Input(i) = cur {
                    match P::input_to_disabled(i, ctx) {
                        Ok(d) => {
                            *self = Pin::Disabled(d);
                            return Ok(());
                        },
                        Err(_) => return Err(GpioMiscError),
                    }
                }
            },
            PinAction::InputToOutput => {
                if let Pin::Input(i) = cur {
                    match P::input_to_output(i, ctx) {
                        Ok(o) => {
                            *self = Pin::Output(o);
                            return Ok(());
                        },
                        Err(_) => return Err(GpioMiscError),
                    }
                }
            },
            PinAction::OutputToDisabled => {
                if let Pin::Output(o) = cur {
                    match P::output_to_disabled(o, ctx) {
                        Ok(d) => {
                            *self = Pin::Disabled(d);
                            return Ok(());
                        },
                        Err(_) => return Err(GpioMiscError),
                    }
                }
            },
            PinAction::OutputToInput => {
                if let Pin::Output(o) = cur {
                    match P::output_to_input(o, ctx) {
                        Ok(i) => {
                            *self = Pin::Input(i);
                            return Ok(());
                        },
                        Err(_) => return Err(GpioMiscError),
                    }
                }
            },
            PinAction::EnableInterrupts => {
                if let Pin::Input(mut i) = cur {
                    match P::enable_interrupts(&mut i, ctx) {
                        Ok(()) => {
                            *self = Pin::Interrupt(i);
                            return Ok(());
                        },
                        Err(_) => return Err(GpioMiscError),
                    }
                }
            },
            PinAction::DisableInterrupts => {
                if let Pin::Interrupt(mut i) = cur {
                    match P::disable_interrupts(&mut i, ctx) {
                        Ok(()) => {
                            *self = Pin::Input(i);
                            return Ok(());
                        },
                        Err(_) => return Err(GpioMiscError),
                    }
                }
            },
            PinAction::SetLow => {
                if let Pin::Output(mut o) = cur {
                    match P::drive_output(&mut o, false) {
                        Ok(()) => {
                            *self = Pin::Output(o);
                            return Ok(());
                        },
                        Err(_) => return Err(GpioMiscError),
                    }
                }
            },
        }
        Err(GpioMiscError)
    }

    /// Moves the pin to mode `new_state` by the conversions of
    /// `transition_plan`, in order; staying in the same mode does nothing. On
    /// the first failure the pin is left in transition.
    pub fn set_state(&mut self, new_state: GpioState, ctx: &mut P::Ctx) -> (r: Result<(), GpioMiscError>)
        requires
            old(self).mode() is Some,
            old(self).wf(),
        ensures
            r is Ok ==> final(self).mode() == Some(new_state) && final(self).wf(),
            r is Ok && new_state == GpioState::Output && old(self).mode() != Some(GpioState::Output)
                ==> final(self).output_level() == Some(false),
            r is Err ==> final(self).mode() is None,
            old(self).mode() == Some(new_state) ==> r is Ok && *final(self) == *old(self)
                && *final(ctx) == *old(ctx),
    {
        let from: GpioState = self.get_state();
        let plan: Vec<PinAction> = transition_plan(from, new_state);
        proof {
            law_plan_reaches_target(from, new_state);
            law_same_mode_is_no_op(from);
            assert(plan@.subrange(0, plan@.len() as int) =~= plan@);
        }
        let mut k: usize = 0;
        while k < plan.len()
            invariant
                k <= plan@.len(),
                plan@ == plan_for(from, new_state),
                old(self).mode() == Some(from),
                from == new_state ==> plan@.len() == 0 && *self == *old(self) && *ctx == *old(ctx),
                self.mode() is Some,
                self.wf(),
                k > 0 && plan@[k - 1] == PinAction::SetLow ==> self.output_level() == Some(false),
                after_plan(self.mode()->0, plan@.subrange(k as int, plan@.len() as int)) == Some(
                    new_state,
                ),
            decreases plan@.len() - k,
        {
            let action: PinAction = plan[k];
            let ghost rest = plan@.subrange(k as int, plan@.len() as int);
            proof {
                lemma_after_plan_step(self.mode()->0, rest, new_state);
                assert(rest.drop_first() =~= plan@.subrange(k + 1, plan@.len() as int));
            }
            match self.apply(action, ctx) {
                Ok(()) => {},
                Err(e) => return Err(e),
            }
            k = k + 1;
        }
        Ok(())
    }

    /// The mode of the pin.
    pub fn get_state(&self) -> (r: GpioState)
        requires
            self.mode() is Some,
        ensures
            Some(r) == self.mode(),
    {
        match self {
            Pin::Disabled(_) => GpioState::Disabled,
            Pin::Input(_) => GpioState::Input,
            Pin::Interrupt(_) => GpioState::Interrupt,
            Pin::Output(_) => GpioState::Output,
            Pin::Transitioning => GpioState::Disabled,
        }
    }

    /// Samples an input or interrupt pin; fails for a disabled pin or an
    /// output.
    pub fn read(&self) -> (r: Result<bool, PinReadError>)
        requires
            self.mode() is Some,
        ensures
            self.mode() == Some(GpioState::Input) || self.mode() == Some(GpioState::Interrupt) ==> r is Ok || r == Err::<bool, PinReadError>(
                PinReadError::Other(GpioMiscError),
            ),
            self.mode() == Some(GpioState::Disabled) ==> r == Err::<bool, PinReadError>(PinReadError::IsDisabled),
            self.mode() == Some(GpioState::Output) ==> r == Err::<bool, PinReadError>(PinReadError::IsInOutputMode),
            r matches Ok(b) ==> self.samples(b),
    {
        match self {
            Pin::Input(inp) | Pin::Interrupt(inp) => match P::input_is_high(inp) {
                Ok(b) => Ok(b),
                Err(_) => Err(PinReadError::Other(GpioMiscError)),
            },
            Pin::Disabled(_) => Err(PinReadError::IsDisabled),
            Pin::Output(_) => Err(PinReadError::IsInOutputMode),
            Pin::Transitioning => Err(PinReadError::IsDisabled),
        }
    }

    /// Drives an output pin to `bit`; fails, changing no mode, for a pin in
    /// another mode.
    pub fn write(&mut self, bit: bool) -> (r: Result<(), PinWriteError>)
        requires
            old(self).mode() is Some,
        ensures
            final(self).mode() == old(self).mode(),
            final(self).wf() == old(self).wf(),
            old(self).mode() == Some(GpioState::Output) && r is Ok ==> final(self).output_level()
                == Some(bit),
            old(self).mode() == Some(GpioState::Output) ==> r is Ok || r == Err::<(), PinWriteError>(
                PinWriteError::Other(GpioMiscError),
            ),
            old(self).mode() == Some(GpioState::Disabled) ==> r == Err::<(), PinWriteError>(PinWriteError::IsDisabled),
            old(self).mode() == Some(GpioState::Input) ==> r == Err::<(), PinWriteError>(PinWriteError::IsInInputMode),
            old(self).mode() == Some(GpioState::Interrupt) ==> r == Err::<(), PinWriteError>(
                PinWriteError::IsInInterruptMode,
            ),
            old(self).mode() != Some(GpioState::Output) ==> *final(self) == *old(self),
    {
        match self {
            Pin::Output(out) => match P::drive_output(out, bit) {
                Ok(()) => Ok(()),
                Err(_) => Err(PinWriteError::Other(GpioMiscError)),
            },
            Pin::Disabled(_) => Err(PinWriteError::IsDisabled),
            Pin::Input(_) => Err(PinWriteError::IsInInputMode),
            Pin::Interrupt(_) => Err(PinWriteError::IsInInterruptMode),
            Pin::Transitioning => Err(PinWriteError::IsDisabled),
        }
    }
}

impl<P: PollForInterrupts + Interrupts> Pin<P> {
    /// Whether answering `pending` agrees with the pin: a pin in interrupt
    /// mode as the board polls it, a pin in another mode never pending.
    pub open spec fn reports(&self, ctx: &P::Ctx, pending: bool) -> bool {
        match self {
            Pin::Interrupt(i) => P::reports_pending(i, ctx, pending),
            _ => !pending,
        }
    }

    /// No interrupt of the pin is pending.
    pub open spec fn cleared(&self, ctx: &P::Ctx) -> bool {
        match self {
            Pin::Interrupt(i) => P::interrupt_cleared(i, ctx),
            _ => true,
        }
    }

    /// Whether an interrupt is pending: only a pin in interrupt mode is
    /// polled.
    pub fn interrupt_pending(&self, ctx: &P::Ctx) -> (r: bool)
        ensures
            self.mode() != Some(GpioState::Interrupt) ==> !r,
            self.reports(ctx, r),
    {
        match self {
            Pin::Interrupt(p) => P::interrupt_pending(p, ctx),
            _ => false,
        }
    }

    /// Clears the pending interrupt of a pin in interrupt mode; does nothing
    /// in another mode.
    pub fn clear_interrupt(&mut self, ctx: &mut P::Ctx)
        ensures
            final(self).mode() == old(self).mode(),
            final(self).wf() == old(self).wf(),
            final(self).cleared(&*final(ctx)),
            old(self).mode() != Some(GpioState::Interrupt) ==> *final(self) == *old(self)
                && *final(ctx) == *old(ctx),
    {
        match self {
            Pin::Interrupt(p) => P::clear_interrupt(p, ctx),
            _ => {},
        }
    }
}

/// The eight pins of the LC-3, all sharing one context.
#[verifier::reject_recursive_types(Ctx)]
pub struct Pins<G0, G1, G2, G3, G4, G5, G6, G7, Ctx> where
    G0: Interrupts + IoPin<Ctx = Ctx>,
    G1: Interrupts + IoPin<Ctx = Ctx>,
    G2: Interrupts + IoPin<Ctx = Ctx>,
    G3: Interrupts + IoPin<Ctx = Ctx>,
    G4: Interrupts + IoPin<Ctx = Ctx>,
    G5: Interrupts + IoPin<Ctx = Ctx>,
    G6: Interrupts + IoPin<Ctx = Ctx>,
    G7: Interrupts + IoPin<Ctx = Ctx>,
 {
    pub g0: Pin<G0>,
    pub g1: Pin<G1>,
    pub g2: Pin<G2>,
    pub g3: Pin<G3>,
    pub g4: Pin<G4>,
    pub g5: Pin<G5>,
    pub g6: Pin<G6>,
    pub g7: Pin<G7>,
}

impl<G0, G1, G2, G3, G4, G5, G6, G7, Ctx> Pins<G0, G1, G2, G3, G4, G5, G6, G7, Ctx> where
    G0: Interrupts + IoPin<Ctx = Ctx>,
    G1: Interrupts + IoPin<Ctx = Ctx>,
    G2: Interrupts + IoPin<Ctx = Ctx>,
    G3: Interrupts + IoPin<Ctx = Ctx>,
    G4: Interrupts + IoPin<Ctx = Ctx>,
    G5: Interrupts + IoPin<Ctx = Ctx>,
    G6: Interrupts + IoPin<Ctx = Ctx>,
    G7: Interrupts + IoPin<Ctx = Ctx>,
 {
    /// The mode of `pin`.
    pub open spec fn mode_of(&self, pin: GpioPin) -> Option<GpioState> {
        match pin {
            GpioPin::G0 => self.g0.mode(),
            GpioPin::G1 => self.g1.mode(),
            GpioPin::G2 => self.g2.mode(),
            GpioPin::G3 => self.g3.mode(),
            GpioPin::G4 => self.g4.mode(),
            GpioPin::G5 => self.g5.mode(),
            GpioPin::G6 => self.g6.mode(),
            GpioPin::G7 => self.g7.mode(),
        }
    }

    /// Whether `pin`'s interrupts are off in input mode and on in interrupt
    /// mode.
    pub open spec fn wf_of(&self, pin: GpioPin) -> bool {
        match pin {
            GpioPin::G0 => self.g0.wf(),
            GpioPin::G1 => self.g1.wf(),
            GpioPin::G2 => self.g2.wf(),
            GpioPin::G3 => self.g3.wf(),
            GpioPin::G4 => self.g4.wf(),
            GpioPin::G5 => self.g5.wf(),
            GpioPin::G6 => self.g6.wf(),
            GpioPin::G7 => self.g7.wf(),
        }
    }

    /// Whether sampling `pin` may give `high`.
    pub open spec fn samples_of(&self, pin: GpioPin, high: bool) -> bool {
        match pin {
            GpioPin::G0 => self.g0.samples(high),
            GpioPin::G1 => self.g1.samples(high),
            GpioPin::G2 => self.g2.samples(high),
            GpioPin::G3 => self.g3.samples(high),
            GpioPin::G4 => self.g4.samples(high),
            GpioPin::G5 => self.g5.samples(high),
            GpioPin::G6 => self.g6.samples(high),
            GpioPin::G7 => self.g7.samples(high),
        }
    }

    /// The level `pin` drives, when it is an output.
    pub open spec fn level_of(&self, pin: GpioPin) -> Option<bool> {
        match pin {
            GpioPin::G0 => self.g0.output_level(),
            GpioPin::G1 => self.g1.output_level(),
            GpioPin::G2 => self.g2.output_level(),
            GpioPin::G3 => self.g3.output_level(),
            GpioPin::G4 => self.g4.output_level(),
            GpioPin::G5 => self.g5.output_level(),
            GpioPin::G6 => self.g6.output_level(),
            GpioPin::G7 => self.g7.output_level(),
        }
    }

    /// Every pin other than `pin` is as in `old`.
    pub open spec fn others_kept(&self, old: &Self, pin: GpioPin) -> bool {
        &&& pin != GpioPin::G0 ==> self.g0 == old.g0
        &&& pin != GpioPin::G1 ==> self.g1 == old.g1
        &&& pin != GpioPin::G2 ==> self.g2 == old.g2
        &&& pin != GpioPin::G3 ==> self.g3 == old.g3
        &&& pin != GpioPin::G4 ==> self.g4 == old.g4
        &&& pin != GpioPin::G5 ==> self.g5 == old.g5
        &&& pin != GpioPin::G6 ==> self.g6 == old.g6
        &&& pin != GpioPin::G7 ==> self.g7 == old.g7
    }

    /// Whether no pin is in transition.
    pub open spec fn settled(&self) -> bool {
        forall|pin: GpioPin| #[trigger] self.mode_of(pin) is Some
    }

    /// Moves `pin` to mode `state`; the other pins keep their modes.
    pub fn set_state(&mut self, pin: GpioPin, state: GpioState, ctx: &mut Ctx) -> (r: Result<(), GpioMiscError>)
        requires
            old(self).mode_of(pin) is Some,
            old(self).wf_of(pin),
        ensures
            r is Ok ==> final(self).mode_of(pin) == Some(state) && final(self).wf_of(pin),
            r is Ok && state == GpioState::Output && old(self).mode_of(pin) != Some(
                GpioState::Output,
            ) ==> final(self).level_of(pin) == Some(false),
            r is Err ==> final(self).mode_of(pin) is None,
            final(self).others_kept(&*old(self), pin),
            old(self).mode_of(pin) == Some(state) ==> r is Ok && *final(self) == *old(self),
            forall|other: GpioPin| other != pin ==> #[trigger] final(self).mode_of(other) == old(
                self).mode_of(other),
    {
        match pin {
            GpioPin::G0 => self.g0.set_state(state, ctx),
            GpioPin::G1 => self.g1.set_state(state, ctx),
            GpioPin::G2 => self.g2.set_state(state, ctx),
            GpioPin::G3 => self.g3.set_state(state, ctx),
            GpioPin::G4 => self.g4.set_state(state, ctx),
            GpioPin::G5 => self.g5.set_state(state, ctx),
            GpioPin::G6 => self.g6.set_state(state, ctx),
            GpioPin::G7 => self.g7.set_state(state, ctx),
        }
    }

    /// The mode of `pin`.
    pub fn get_state(&self, pin: GpioPin) -> (r: GpioState)
        requires
            self.mode_of(pin) is Some,
        ensures
            Some(r) == self.mode_of(pin),
    {
        match pin {
            GpioPin::G0 => self.g0.get_state(),
            GpioPin::G1 => self.g1.get_state(),
            GpioPin::G2 => self.g2.get_state(),
            GpioPin::G3 => self.g3.get_state(),
            GpioPin::G4 => self.g4.get_state(),
            GpioPin::G5 => self.g5.get_state(),
            GpioPin::G6 => self.g6.get_state(),
            GpioPin::G7 => self.g7.get_state(),
        }
    }

    /// Samples `pin` if it is an input or an interrupt pin.
    pub fn read(&self, pin: GpioPin) -> (r: Result<bool, PinReadError>)
        requires
            self.mode_of(pin) is Some,
        ensures
            self.mode_of(pin) == Some(GpioState::Input) || self.mode_of(pin) == Some(
                GpioState::Interrupt,
            ) ==> r is Ok || r == Err::<bool, PinReadError>(PinReadError::Other(GpioMiscError)),
            self.mode_of(pin) == Some(GpioState::Disabled) ==> r == Err::<bool, PinReadError>(
                PinReadError::IsDisabled,
            ),
            self.mode_of(pin) == Some(GpioState::Output) ==> r == Err::<bool, PinReadError>(
                PinReadError::IsInOutputMode,
            ),
            r matches Ok(b) ==> self.samples_of(pin, b),
    {
        match pin {
            GpioPin::G0 => self.g0.read(),
            GpioPin::G1 => self.g1.read(),
            GpioPin::G2 => self.g2.read(),
            GpioPin::G3 => self.g3.read(),
            GpioPin::G4 => self.g4.read(),
            GpioPin::G5 => self.g5.read(),
            GpioPin::G6 => self.g6.read(),
            GpioPin::G7 => self.g7.read(),
        }
    }

    /// Drives `pin` to `bit` if it is an output; no pin changes mode.
    pub fn write(&mut self, pin: GpioPin, bit: bool) -> (r: Result<(), PinWriteError>)
        requires
            old(self).mode_of(pin) is Some,
        ensures
            forall|p: GpioPin| #[trigger] final(self).mode_of(p) == old(self).mode_of(p),
            forall|p: GpioPin| #[trigger] final(self).wf_of(p) == old(self).wf_of(p),
            old(self).mode_of(pin) == Some(GpioState::Output) && r is Ok ==> final(self).level_of(
                pin,
            ) == Some(bit),
            final(self).others_kept(&*old(self), pin),
            old(self).mode_of(pin) == Some(GpioState::Output) ==> r is Ok || r == Err::<
                (),
                PinWriteError,
            >(PinWriteError::Other(GpioMiscError)),
            old(self).mode_of(pin) == Some(GpioState::Disabled) ==> r == Err::<(), PinWriteError>(
                PinWriteError::IsDisabled,
            ),
            old(self).mode_of(pin) == Some(GpioState::Input) ==> r == Err::<(), PinWriteError>(
                PinWriteError::IsInInputMode,
            ),
            old(self).mode_of(pin) == Some(GpioState::Interrupt) ==> r == Err::<(), PinWriteError>(
                PinWriteError::IsInInterruptMode,
            ),
            old(self).mode_of(pin) != Some(GpioState::Output) ==> *final(self) == *old(self),
    {
        match pin {
            GpioPin::G0 => self.g0.write(bit),
            GpioPin::G1 => self.g1.write(bit),
            GpioPin::G2 => self.g2.write(bit),
            GpioPin::G3 => self.g3.write(bit),
            GpioPin::G4 => self.g4.write(bit),
            GpioPin::G5 => self.g5.write(bit),
            GpioPin::G6 => self.g6.write(bit),
            GpioPin::G7 => self.g7.write(bit),
        }
    }
}


impl<G0, G1, G2, G3, G4, G5, G6, G7, Ctx> Pins<G0, G1, G2, G3, G4, G5, G6, G7, Ctx> where
    G0: PollForInterrupts + Interrupts + IoPin<Ctx = Ctx>,
    G1: PollForInterrupts + Interrupts + IoPin<Ctx = Ctx>,
    G2: PollForInterrupts + Interrupts + IoPin<Ctx = Ctx>,
    G3: PollForInterrupts + Interrupts + IoPin<Ctx = Ctx>,
    G4: PollForInterrupts + Interrupts + IoPin<Ctx = Ctx>,
    G5: PollForInterrupts + Interrupts + IoPin<Ctx = Ctx>,
    G6: PollForInterrupts + Interrupts + IoPin<Ctx = Ctx>,
    G7: PollForInterrupts + Interrupts + IoPin<Ctx = Ctx>,
 {
    /// Whether answering `pending` for `pin` agrees with the pin.
    pub open spec fn reports_of(&self, pin: GpioPin, ctx: &Ctx, pending: bool) -> bool {
        match pin {
            GpioPin::G0 => self.g0.reports(ctx, pending),
            GpioPin::G1 => self.g1.reports(ctx, pending),
            GpioPin::G2 => self.g2.reports(ctx, pending),
            GpioPin::G3 => self.g3.reports(ctx, pending),
            GpioPin::G4 => self.g4.reports(ctx, pending),
            GpioPin::G5 => self.g5.reports(ctx, pending),
            GpioPin::G6 => self.g6.reports(ctx, pending),
            GpioPin::G7 => self.g7.reports(ctx, pending),
        }
    }

    /// No interrupt of `pin` is pending.
    pub open spec fn cleared_of(&self, pin: GpioPin, ctx: &Ctx) -> bool {
        match pin {
            GpioPin::G0 => self.g0.cleared(ctx),
            GpioPin::G1 => self.g1.cleared(ctx),
            GpioPin::G2 => self.g2.cleared(ctx),
            GpioPin::G3 => self.g3.cleared(ctx),
            GpioPin::G4 => self.g4.cleared(ctx),
            GpioPin::G5 => self.g5.cleared(ctx),
            GpioPin::G6 => self.g6.cleared(ctx),
            GpioPin::G7 => self.g7.cleared(ctx),
        }
    }

    /// Polls the interrupt of `pin`: only a pin in interrupt mode can have
    /// one pending.
    pub fn interrupt_pending(&self, pin: GpioPin, ctx: &Ctx) -> (r: bool)
        ensures
            self.mode_of(pin) != Some(GpioState::Interrupt) ==> !r,
            self.reports_of(pin, ctx, r),
    {
        match pin {
            GpioPin::G0 => self.g0.interrupt_pending(ctx),
            GpioPin::G1 => self.g1.interrupt_pending(ctx),
            GpioPin::G2 => self.g2.interrupt_pending(ctx),
            GpioPin::G3 => self.g3.interrupt_pending(ctx),
            GpioPin::G4 => self.g4.interrupt_pending(ctx),
            GpioPin::G5 => self.g5.interrupt_pending(ctx),
            GpioPin::G6 => self.g6.interrupt_pending(ctx),
            GpioPin::G7 => self.g7.interrupt_pending(ctx),
        }
    }

    /// Clears the interrupt of `pin` if it is in interrupt mode; no pin
    /// changes mode.
    pub fn clear_interrupt(&mut self, pin: GpioPin, ctx: &mut Ctx)
        ensures
            forall|p: GpioPin| #[trigger] final(self).mode_of(p) == old(self).mode_of(p),
            forall|p: GpioPin| #[trigger] final(self).wf_of(p) == old(self).wf_of(p),
            final(self).cleared_of(pin, &*final(ctx)),
            old(self).mode_of(pin) != Some(GpioState::Interrupt) ==> *final(self) == *old(self)
                && *final(ctx) == *old(ctx),
            pin != GpioPin::G0 ==> final(self).g0 == old(self).g0,
            pin != GpioPin::G1 ==> final(self).g1 == old(self).g1,
            pin != GpioPin::G2 ==> final(self).g2 == old(self).g2,
            pin != GpioPin::G3 ==> final(self).g3 == old(self).g3,
            pin != GpioPin::G4 ==> final(self).g4 == old(self).g4,
            pin != GpioPin::G5 ==> final(self).g5 == old(self).g5,
            pin != GpioPin::G6 ==> final(self).g6 == old(self).g6,
            pin != GpioPin::G7 ==> final(self).g7 == old(self).g7,
    {
        match pin {
            GpioPin::G0 => self.g0.clear_interrupt(ctx),
            GpioPin::G1 => self.g1.clear_interrupt(ctx),
            GpioPin::G2 => self.g2.clear_interrupt(ctx),
            GpioPin::G3 => self.g3.clear_interrupt(ctx),
            GpioPin::G4 => self.g4.clear_interrupt(ctx),
            GpioPin::G5 => self.g5.clear_interrupt(ctx),
            GpioPin::G6 => self.g6.clear_interrupt(ctx),
            GpioPin::G7 => self.g7.clear_interrupt(ctx),
        }
    }
}

/// How a GPIO driver learns of and clears the pins' interrupts.
pub trait InterruptSolution<G0, G1, G2, G3, G4, G5, G6, G7, Ctx> where
    G0: Interrupts + IoPin<Ctx = Ctx>,
    G1: Interrupts + IoPin<Ctx = Ctx>,
    G2: Interrupts + IoPin<Ctx = Ctx>,
    G3: Interrupts + IoPin<Ctx = Ctx>,
    G4: Interrupts + IoPin<Ctx = Ctx>,
    G5: Interrupts + IoPin<Ctx = Ctx>,
    G6: Interrupts + IoPin<Ctx = Ctx>,
    G7: Interrupts + IoPin<Ctx = Ctx>,
 {
    /// Whether answering `pending` for `pin` agrees with what the solution
    /// learnt of its interrupts.
    spec fn reports(
        &self,
        pin: GpioPin,
        pins: &Pins<G0, G1, G2, G3, G4, G5, G6, G7, Ctx>,
        ctx: &Ctx,
        pending: bool,
    ) -> bool;

    /// No interrupt of `pin` is pending, as far as the solution knows.
    spec fn cleared(
        &self,
        pin: GpioPin,
        pins: &Pins<G0, G1, G2, G3, G4, G5, G6, G7, Ctx>,
        ctx: &Ctx,
    ) -> bool;

    /// Whether an interrupt is pending on `pin`.
    fn interrupt_pending(
        &self,
        pin: GpioPin,
        pins: &Pins<G0, G1, G2, G3, G4, G5, G6, G7, Ctx>,
        ctx: &Ctx,
    ) -> (r: bool)
        ensures
            self.reports(pin, pins, ctx, r),
    ;

    /// Clears the interrupt of `pin`; no pin changes mode, and the other
    /// pins are untouched.
    fn clear_interrupt(
        &mut self,
        pin: GpioPin,
        pins: &mut Pins<G0, G1, G2, G3, G4, G5, G6, G7, Ctx>,
        ctx: &mut Ctx,
    )
        ensures
            forall|p: GpioPin| #[trigger] final(pins).mode_of(p) == old(pins).mode_of(p),
            forall|p: GpioPin| #[trigger] final(pins).wf_of(p) == old(pins).wf_of(p),
            final(pins).others_kept(&*old(pins), pin),
            final(self).cleared(pin, &*final(pins), &*final(ctx)),
    ;
}

/// Interrupts raised into one flag per pin, which the interrupt handlers set.
pub struct FlagBasedInterrupts(pub [bool; 8]);

impl<G0, G1, G2, G3, G4, G5, G6, G7, Ctx> InterruptSolution<G0, G1, G2, G3, G4, G5, G6, G7, Ctx> for FlagBasedInterrupts where
    G0: Interrupts + IoPin<Ctx = Ctx>,
    G1: Interrupts + IoPin<Ctx = Ctx>,
    G2: Interrupts + IoPin<Ctx = Ctx>,
    G3: Interrupts + IoPin<Ctx = Ctx>,
    G4: Interrupts + IoPin<Ctx = Ctx>,
    G5: Interrupts + IoPin<Ctx = Ctx>,
    G6: Interrupts + IoPin<Ctx = Ctx>,
    G7: Interrupts + IoPin<Ctx = Ctx>,
 {
    open spec fn reports(
        &self,
        pin: GpioPin,
        pins: &Pins<G0, G1, G2, G3, G4, G5, G6, G7, Ctx>,
        ctx: &Ctx,
        pending: bool,
    ) -> bool {
        pending == self.0@[crate::lc3_peripherals::gpio_index(pin)]
    }

    open spec fn cleared(
        &self,
        pin: GpioPin,
        pins: &Pins<G0, G1, G2, G3, G4, G5, G6, G7, Ctx>,
        ctx: &Ctx,
    ) -> bool {
        !self.0@[crate::lc3_peripherals::gpio_index(pin)]
    }

    /// The flag of `pin`.
    fn interrupt_pending(
        &self,
        pin: GpioPin,
        pins: &Pins<G0, G1, G2, G3, G4, G5, G6, G7, Ctx>,
        ctx: &Ctx,
    ) -> (r: bool)
        ensures
            r == self.0@[crate::lc3_peripherals::gpio_index(pin)],
    {
        self.0[pin.index()]
    }

    /// Lowers the flag of `pin`.
    fn clear_interrupt(
        &mut self,
        pin: GpioPin,
        pins: &mut Pins<G0, G1, G2, G3, G4, G5, G6, G7, Ctx>,
        ctx: &mut Ctx,
    )
        ensures
            final(self).0@ == old(self).0@.update(crate::lc3_peripherals::gpio_index(pin), false),
            *final(pins) == *old(pins),
    {
        self.0[pin.index()] = false;
    }
}

/// Interrupts polled from the pins themselves.
pub struct SelfContainedInterruptSolution;

impl<G0, G1, G2, G3, G4, G5, G6, G7, Ctx> InterruptSolution<G0, G1, G2, G3, G4, G5, G6, G7, Ctx> for SelfContainedInterruptSolution where
    G0: PollForInterrupts + Interrupts + IoPin<Ctx = Ctx>,
    G1: PollForInterrupts + Interrupts + IoPin<Ctx = Ctx>,
    G2: PollForInterrupts + Interrupts + IoPin<Ctx = Ctx>,
    G3: PollForInterrupts + Interrupts + IoPin<Ctx = Ctx>,
    G4: PollForInterrupts + Interrupts + IoPin<Ctx = Ctx>,
    G5: PollForInterrupts + Interrupts + IoPin<Ctx = Ctx>,
    G6: PollForInterrupts + Interrupts + IoPin<Ctx = Ctx>,
    G7: PollForInterrupts + Interrupts + IoPin<Ctx = Ctx>,
 {
    open spec fn reports(
        &self,
        pin: GpioPin,
        pins: &Pins<G0, G1, G2, G3, G4, G5, G6, G7, Ctx>,
        ctx: &Ctx,
        pending: bool,
    ) -> bool {
        pins.reports_of(pin, ctx, pending)
    }

    open spec fn cleared(
        &self,
        pin: GpioPin,
        pins: &Pins<G0, G1, G2, G3, G4, G5, G6, G7, Ctx>,
        ctx: &Ctx,
    ) -> bool {
        pins.cleared_of(pin, ctx)
    }

    /// Polls `pin`.
    fn interrupt_pending(
        &self,
        pin: GpioPin,
        pins: &Pins<G0, G1, G2, G3, G4, G5, G6, G7, Ctx>,
        ctx: &Ctx,
    ) -> (r: bool)
        ensures
            pins.mode_of(pin) != Some(GpioState::Interrupt) ==> !r,
    {
        pins.interrupt_pending(pin, ctx)
    }

    /// Clears the interrupt of `pin`.
    fn clear_interrupt(
        &mut self,
        pin: GpioPin,
        pins: &mut Pins<G0, G1, G2, G3, G4, G5, G6, G7, Ctx>,
        ctx: &mut Ctx,
    )
        ensures
            old(pins).mode_of(pin) != Some(GpioState::Interrupt) ==> *final(pins) == *old(pins)
                && *final(ctx) == *old(ctx),
    {
        pins.clear_interrupt(pin, ctx)
    }
}

/// A GPIO driver: the eight pins, how their interrupts are learnt of, and
/// the context the pins are converted in.
#[verifier::reject_recursive_types(Ctx)]
pub struct Gpio<'c, G0, G1, G2, G3, G4, G5, G6, G7, I, Ctx> where
    G0: Interrupts + IoPin<Ctx = Ctx>,
    G1: Interrupts + IoPin<Ctx = Ctx>,
    G2: Interrupts + IoPin<Ctx = Ctx>,
    G3: Interrupts + IoPin<Ctx = Ctx>,
    G4: Interrupts + IoPin<Ctx = Ctx>,
    G5: Interrupts + IoPin<Ctx = Ctx>,
    G6: Interrupts + IoPin<Ctx = Ctx>,
    G7: Interrupts + IoPin<Ctx = Ctx>,
    I: InterruptSolution<G0, G1, G2, G3, G4, G5, G6, G7, Ctx>,
 {
    pub pins: Pins<G0, G1, G2, G3, G4, G5, G6, G7, Ctx>,
    pub interrupt_solution: I,
    pub ctx: OwnedOrMut<'c, Ctx>,
}

impl<'c, G0, G1, G2, G3, G4, G5, G6, G7, Ctx> Gpio<'c, G0, G1, G2, G3, G4, G5, G6, G7, FlagBasedInterrupts, Ctx> where
    G0: Interrupts + IoPin<Ctx = Ctx>,
    G1: Interrupts + IoPin<Ctx = Ctx>,
    G2: Interrupts + IoPin<Ctx = Ctx>,
    G3: Interrupts + IoPin<Ctx = Ctx>,
    G4: Interrupts + IoPin<Ctx = Ctx>,
    G5: Interrupts + IoPin<Ctx = Ctx>,
    G6: Interrupts + IoPin<Ctx = Ctx>,
    G7: Interrupts + IoPin<Ctx = Ctx>,
 {
    /// A driver over eight disabled pins, learning of interrupts from the
    /// flags `interrupt_flags`.
    pub fn new_with_context(
        g0: G0::Disabled,
        g1: G1::Disabled,
        g2: G2::Disabled,
        g3: G3::Disabled,
        g4: G4::Disabled,
        g5: G5::Disabled,
        g6: G6::Disabled,
        g7: G7::Disabled,
        interrupt_flags: [bool; 8],
        ctx: OwnedOrMut<'c, Ctx>,
    ) -> (r: Self)
        ensures
            forall|pin: GpioPin| #[trigger] r.pins.mode_of(pin) == Some(GpioState::Disabled),
            forall|pin: GpioPin| #[trigger] r.pins.wf_of(pin),
            r.pins.g0 == Pin::<G0>::Disabled(g0),
            r.pins.g1 == Pin::<G1>::Disabled(g1),
            r.pins.g2 == Pin::<G2>::Disabled(g2),
            r.pins.g3 == Pin::<G3>::Disabled(g3),
            r.pins.g4 == Pin::<G4>::Disabled(g4),
            r.pins.g5 == Pin::<G5>::Disabled(g5),
            r.pins.g6 == Pin::<G6>::Disabled(g6),
            r.pins.g7 == Pin::<G7>::Disabled(g7),
            r.interrupt_solution == FlagBasedInterrupts(interrupt_flags),
            r.ctx == ctx,
    {
        Gpio {
            pins: Pins {
                g0: Pin::Disabled(g0),
                g1: Pin::Disabled(g1),
                g2: Pin::Disabled(g2),
                g3: Pin::Disabled(g3),
                g4: Pin::Disabled(g4),
                g5: Pin::Disabled(g5),
                g6: Pin::Disabled(g6),
                g7: Pin::Disabled(g7),
            },
            interrupt_solution: FlagBasedInterrupts(interrupt_flags),
            ctx: ctx,
        }
    }
}

impl<'c, G0, G1, G2, G3, G4, G5, G6, G7> Gpio<'c, G0, G1, G2, G3, G4, G5, G6, G7, FlagBasedInterrupts, ()> where
    G0: Interrupts + IoPin<Ctx = ()>,
    G1: Interrupts + IoPin<Ctx = ()>,
    G2: Interrupts + IoPin<Ctx = ()>,
    G3: Interrupts + IoPin<Ctx = ()>,
    G4: Interrupts + IoPin<Ctx = ()>,
    G5: Interrupts + IoPin<Ctx = ()>,
    G6: Interrupts + IoPin<Ctx = ()>,
    G7: Interrupts + IoPin<Ctx = ()>,
 {
    /// A driver over eight disabled pins that need no context, learning of
    /// interrupts from the flags `interrupt_flags`.
    pub fn new(
        g0: G0::Disabled,
        g1: G1::Disabled,
        g2: G2::Disabled,
        g3: G3::Disabled,
        g4: G4::Disabled,
        g5: G5::Disabled,
        g6: G6::Disabled,
        g7: G7::Disabled,
        interrupt_flags: [bool; 8],
    ) -> (r: Self)
        ensures
            forall|pin: GpioPin| #[trigger] r.pins.mode_of(pin) == Some(GpioState::Disabled),
            forall|pin: GpioPin| #[trigger] r.pins.wf_of(pin),
            r.pins.g0 == Pin::<G0>::Disabled(g0),
            r.pins.g1 == Pin::<G1>::Disabled(g1),
            r.pins.g2 == Pin::<G2>::Disabled(g2),
            r.pins.g3 == Pin::<G3>::Disabled(g3),
            r.pins.g4 == Pin::<G4>::Disabled(g4),
            r.pins.g5 == Pin::<G5>::Disabled(g5),
            r.pins.g6 == Pin::<G6>::Disabled(g6),
            r.pins.g7 == Pin::<G7>::Disabled(g7),
            r.interrupt_solution == FlagBasedInterrupts(interrupt_flags),
            r.ctx == OwnedOrMut::<()>::Owned(()),
    {
        Self::new_with_context(g0, g1, g2, g3, g4, g5, g6, g7, interrupt_flags, OwnedOrMut::Owned(()))
    }
}

impl<'c, G0, G1, G2, G3, G4, G5, G6, G7, Ctx> Gpio<'c, G0, G1, G2, G3, G4, G5, G6, G7, SelfContainedInterruptSolution, Ctx> where
    G0: PollForInterrupts + Interrupts + IoPin<Ctx = Ctx>,
    G1: PollForInterrupts + Interrupts + IoPin<Ctx = Ctx>,
    G2: PollForInterrupts + Interrupts + IoPin<Ctx = Ctx>,
    G3: PollForInterrupts + Interrupts + IoPin<Ctx = Ctx>,
    G4: PollForInterrupts + Interrupts + IoPin<Ctx = Ctx>,
    G5: PollForInterrupts + Interrupts + IoPin<Ctx = Ctx>,
    G6: PollForInterrupts + Interrupts + IoPin<Ctx = Ctx>,
    G7: PollForInterrupts + Interrupts + IoPin<Ctx = Ctx>,
 {
    /// A driver over eight disabled pins that poll their own interrupts.
    pub fn new_with_context(
        g0: G0::Disabled,
        g1: G1::Disabled,
        g2: G2::Disabled,
        g3: G3::Disabled,
        g4: G4::Disabled,
        g5: G5::Disabled,
        g6: G6::Disabled,
        g7: G7::Disabled,
        ctx: OwnedOrMut<'c, Ctx>,
    ) -> (r: Self)
        ensures
            forall|pin: GpioPin| #[trigger] r.pins.mode_of(pin) == Some(GpioState::Disabled),
            forall|pin: GpioPin| #[trigger] r.pins.wf_of(pin),
            r.pins.g0 == Pin::<G0>::Disabled(g0),
            r.pins.g1 == Pin::<G1>::Disabled(g1),
            r.pins.g2 == Pin::<G2>::Disabled(g2),
            r.pins.g3 == Pin::<G3>::Disabled(g3),
            r.pins.g4 == Pin::<G4>::Disabled(g4),
            r.pins.g5 == Pin::<G5>::Disabled(g5),
            r.pins.g6 == Pin::<G6>::Disabled(g6),
            r.pins.g7 == Pin::<G7>::Disabled(g7),
            r.ctx == ctx,
    {
        Gpio {
            pins: Pins {
                g0: Pin::Disabled(g0),
                g1: Pin::Disabled(g1),
                g2: Pin::Disabled(g2),
                g3: Pin::Disabled(g3),
                g4: Pin::Disabled(g4),
                g5: Pin::Disabled(g5),
                g6: Pin::Disabled(g6),
                g7: Pin::Disabled(g7),
            },
            interrupt_solution: SelfContainedInterruptSolution,
            ctx: ctx,
        }
    }
}

impl<'c, G0, G1, G2, G3, G4, G5, G6, G7> Gpio<'c, G0, G1, G2, G3, G4, G5, G6, G7, SelfContainedInterruptSolution, ()> where
    G0: PollForInterrupts + Interrupts + IoPin<Ctx = ()>,
    G1: PollForInterrupts + Interrupts + IoPin<Ctx = ()>,
    G2: PollForInterrupts + Interrupts + IoPin<Ctx = ()>,
    G3: PollForInterrupts + Interrupts + IoPin<Ctx = ()>,
    G4: PollForInterrupts + Interrupts + IoPin<Ctx = ()>,
    G5: PollForInterrupts + Interrupts + IoPin<Ctx = ()>,
    G6: PollForInterrupts + Interrupts + IoPin<Ctx = ()>,
    G7: PollForInterrupts + Interrupts + IoPin<Ctx = ()>,
 {
    /// A driver over eight disabled pins that need no context and poll
    /// their own interrupts.
    pub fn new(
        g0: G0::Disabled,
        g1: G1::Disabled,
        g2: G2::Disabled,
        g3: G3::Disabled,
        g4: G4::Disabled,
        g5: G5::Disabled,
        g6: G6::Disabled,
        g7: G7::Disabled,
    ) -> (r: Self)
        ensures
            forall|pin: GpioPin| #[trigger] r.pins.mode_of(pin) == Some(GpioState::Disabled),
            forall|pin: GpioPin| #[trigger] r.pins.wf_of(pin),
            r.pins.g0 == Pin::<G0>::Disabled(g0),
            r.pins.g1 == Pin::<G1>::Disabled(g1),
            r.pins.g2 == Pin::<G2>::Disabled(g2),
            r.pins.g3 == Pin::<G3>::Disabled(g3),
            r.pins.g4 == Pin::<G4>::Disabled(g4),
            r.pins.g5 == Pin::<G5>::Disabled(g5),
            r.pins.g6 == Pin::<G6>::Disabled(g6),
            r.pins.g7 == Pin::<G7>::Disabled(g7),
            r.ctx == OwnedOrMut::<()>::Owned(()),
    {
        Self::new_with_context(g0, g1, g2, g3, g4, g5, g6, g7, OwnedOrMut::Owned(()))
    }
}

impl<'c, G0, G1, G2, G3, G4, G5, G6, G7, I, Ctx> Gpio<'c, G0, G1, G2, G3, G4, G5, G6, G7, I, Ctx> where
    G0: Interrupts + IoPin<Ctx = Ctx>,
    G1: Interrupts + IoPin<Ctx = Ctx>,
    G2: Interrupts + IoPin<Ctx = Ctx>,
    G3: Interrupts + IoPin<Ctx = Ctx>,
    G4: Interrupts + IoPin<Ctx = Ctx>,
    G5: Interrupts + IoPin<Ctx = Ctx>,
    G6: Interrupts + IoPin<Ctx = Ctx>,
    G7: Interrupts + IoPin<Ctx = Ctx>,
    I: InterruptSolution<G0, G1, G2, G3, G4, G5, G6, G7, Ctx>,
 {
    /// Moves `pin` to mode `state`; the other pins keep their modes.
    pub fn set_state(&mut self, pin: GpioPin, state: GpioState) -> (r: Result<(), GpioMiscError>)
        requires
            old(self).pins.mode_of(pin) is Some,
            old(self).pins.wf_of(pin),
        ensures
            r is Ok ==> final(self).pins.mode_of(pin) == Some(state) && final(self).pins.wf_of(pin),
            r is Ok && state == GpioState::Output && old(self).pins.mode_of(pin) != Some(
                GpioState::Output,
            ) ==> final(self).pins.level_of(pin) == Some(false),
            final(self).pins.others_kept(&old(self).pins, pin),
            r is Err ==> final(self).pins.mode_of(pin) is None,
            old(self).pins.mode_of(pin) == Some(state) ==> r is Ok && final(self).pins == old(
                self).pins,
            forall|other: GpioPin| other != pin ==> #[trigger] final(self).pins.mode_of(other)
                == old(self).pins.mode_of(other),
    {
        self.pins.set_state(pin, state, self.ctx.as_mut())
    }

    /// The mode of `pin`.
    pub fn get_state(&self, pin: GpioPin) -> (r: GpioState)
        requires
            self.pins.mode_of(pin) is Some,
        ensures
            Some(r) == self.pins.mode_of(pin),
    {
        self.pins.get_state(pin)
    }

    /// Samples `pin` if it is an input or an interrupt pin.
    pub fn read(&self, pin: GpioPin) -> (r: Result<bool, PinReadError>)
        requires
            self.pins.mode_of(pin) is Some,
        ensures
            self.pins.mode_of(pin) == Some(GpioState::Input) || self.pins.mode_of(pin) == Some(
                GpioState::Interrupt,
            ) ==> r is Ok || r == Err::<bool, PinReadError>(PinReadError::Other(GpioMiscError)),
            self.pins.mode_of(pin) == Some(GpioState::Disabled) ==> r == Err::<bool, PinReadError>(
                PinReadError::IsDisabled,
            ),
            self.pins.mode_of(pin) == Some(GpioState::Output) ==> r == Err::<bool, PinReadError>(
                PinReadError::IsInOutputMode,
            ),
            r matches Ok(b) ==> self.pins.samples_of(pin, b),
    {
        self.pins.read(pin)
    }

    /// Drives `pin` to `bit` if it is an output; no pin changes mode.
    pub fn write(&mut self, pin: GpioPin, bit: bool) -> (r: Result<(), PinWriteError>)
        requires
            old(self).pins.mode_of(pin) is Some,
        ensures
            forall|p: GpioPin| #[trigger] final(self).pins.mode_of(p) == old(self).pins.mode_of(p),
            forall|p: GpioPin| #[trigger] final(self).pins.wf_of(p) == old(self).pins.wf_of(p),
            old(self).pins.mode_of(pin) == Some(GpioState::Output) && r is Ok
                ==> final(self).pins.level_of(pin) == Some(bit),
            final(self).pins.others_kept(&old(self).pins, pin),
            old(self).pins.mode_of(pin) == Some(GpioState::Output) ==> r is Ok || r == Err::<
                (),
                PinWriteError,
            >(PinWriteError::Other(GpioMiscError)),
            old(self).pins.mode_of(pin) == Some(GpioState::Disabled) ==> r == Err::<
                (),
                PinWriteError,
            >(PinWriteError::IsDisabled),
            old(self).pins.mode_of(pin) == Some(GpioState::Input) ==> r == Err::<(), PinWriteError>(
                PinWriteError::IsInInputMode,
            ),
            old(self).pins.mode_of(pin) == Some(GpioState::Interrupt) ==> r == Err::<
                (),
                PinWriteError,
            >(PinWriteError::IsInInterruptMode),
    {
        self.pins.write(pin, bit)
    }

    /// Accepts the LC-3's interrupt flags and keeps nothing of them.
    pub fn register_interrupt_flags(&mut self, flags: [bool; 8])
        ensures
            *final(self) == *old(self),
    {
    }

    /// Whether an interrupt is pending on `pin`, which is in interrupt mode,
    /// as the interrupt solution tells.
    pub fn interrupt_occurred(&self, pin: GpioPin) -> (r: bool)
        requires
            self.pins.mode_of(pin) == Some(GpioState::Interrupt),
        ensures
            self.interrupt_solution.reports(pin, &self.pins, &self.ctx.value(), r),
    {
        self.interrupt_solution.interrupt_pending(pin, &self.pins, self.ctx.as_ref())
    }

    /// Clears the pending interrupt of `pin` through the interrupt solution.
    pub fn reset_interrupt_flag(&mut self, pin: GpioPin)
        ensures
            forall|p: GpioPin| #[trigger] final(self).pins.mode_of(p) == old(self).pins.mode_of(p),
            forall|p: GpioPin| #[trigger] final(self).pins.wf_of(p) == old(self).pins.wf_of(p),
            final(self).pins.others_kept(&old(self).pins, pin),
            final(self).interrupt_solution.cleared(
                pin,
                &final(self).pins,
                &final(self).ctx.value(),
            ),
    {
        self.interrupt_solution.clear_interrupt(pin, &mut self.pins, self.ctx.as_mut())
    }
}

/// Following the plan from `from` to `to` is possible at every step and
/// leaves the pin in mode `to`.
pub proof fn law_plan_reaches_target(from: GpioState, to: GpioState)
    ensures
        after_plan(from, plan_for(from, to)) == Some(to),
{
    reveal_with_fuel(after_plan, 4);
    let p = plan_for(from, to);
    if p.len() >= 1 {
        assert(p.drop_first().len() == p.len() - 1);
    }
    if p.len() >= 2 {
        assert(p.drop_first().drop_first().len() == p.len() - 2);
    }
    assert(p.len() <= 3);
}

/// A pin that becomes an output is driven low last.
pub proof fn law_output_starts_low(from: GpioState)
    requires
        from != GpioState::Output,
    ensures
        plan_for(from, GpioState::Output).last() == PinAction::SetLow,
{
}

/// A pin leaves interrupt mode only after its interrupts are disabled.
pub proof fn law_interrupts_disabled_first(to: GpioState)
    requires
        to != GpioState::Interrupt,
    ensures
        plan_for(GpioState::Interrupt, to)[0] == PinAction::DisableInterrupts,
{
}

/// Staying in the same mode takes no conversion.
pub proof fn law_same_mode_is_no_op(mode: GpioState)
    ensures
        plan_for(mode, mode).len() == 0,
{
}

/// The mode a pin is in right after `action`.
pub open spec fn mode_after(action: PinAction) -> GpioState {
    match action {
        PinAction::DisabledToInput => GpioState::Input,
        PinAction::DisabledToOutput => GpioState::Output,
        PinAction::InputToDisabled => GpioState::Disabled,
        PinAction::InputToOutput => GpioState::Output,
        PinAction::OutputToDisabled => GpioState::Disabled,
        PinAction::OutputToInput => GpioState::Input,
        PinAction::EnableInterrupts => GpioState::Interrupt,
        PinAction::DisableInterrupts => GpioState::Input,
        PinAction::SetLow => GpioState::Output,
    }
}

/// Every plan is a shortest one: it takes one conversion per change of
/// mode, two where interrupt mode is left for or entered from a mode other
/// than input (through input), and one more to drive a new output low; and
/// no step passes through a mode other than the target, or input on the way
/// into or out of interrupt mode. So a disabled pin becomes an input by one
/// conversion, and never by way of output.
pub proof fn law_plans_are_shortest(from: GpioState, to: GpioState)
    ensures
        plan_for(from, to).len() == (if from == to {
            0int
        } else if (from == GpioState::Interrupt && to != GpioState::Input) || (to
            == GpioState::Interrupt && from != GpioState::Input) {
            2int
        } else {
            1int
        }) + (if to == GpioState::Output && from != GpioState::Output {
            1int
        } else {
            0int
        }),
        forall|i: int|
            0 <= i < plan_for(from, to).len() ==> ({
                let m = mode_after(#[trigger] plan_for(from, to)[i]);
                m == to || (m == GpioState::Input && (from == GpioState::Interrupt || to
                    == GpioState::Interrupt))
            }),
        plan_for(GpioState::Disabled, GpioState::Input) == seq![PinAction::DisabledToInput],
{
}

} // verus!
