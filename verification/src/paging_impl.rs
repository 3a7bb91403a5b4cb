//! Paging units that keep the LC-3 memory in the TM4C flash.
pub mod tm4c_flash_page_impl;
pub mod tm4c_flash_paging_config;
