//! LC-3 memory kept directly in the primary partition of the TM4C flash.
pub mod tm4c_memory_impl;
