//! The LC-3 peripherals on the TM4C launchpad.
pub mod gpio;
pub mod pwm;
pub mod adc;
pub mod timers;
pub mod clock;
pub mod dma_impl;
pub mod flash;
