//! Software models of the LC-3 peripherals.
pub mod gpio;
pub mod gpio_singleshot;
pub mod pwm;
