//! Verified core of the LC-3 platform for the TI TM4C launchpad.
#![allow(non_camel_case_types, non_snake_case, non_upper_case_globals)]

pub mod bit_count;
pub mod flash;
pub mod paging;
pub mod memory_trait_RAM_flash;
pub mod persistent_data_management;
pub mod paging_impl;
pub mod memory_impl;
pub mod peripherals_generic;
pub mod generic_gpio;
pub mod lc3_peripherals;
pub mod peripherals;
pub mod peripherals_tm4c;
