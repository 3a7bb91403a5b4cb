//! Peripherals written against generic hardware interfaces.
pub mod dma;
pub mod gpio_impl;
pub mod pwm;
pub mod adc;
