//! A paging unit that keeps LC-3 memory in flash: a primary partition that
//! holds every LC-3 page and a swap partition for pages moved out of it.
use vstd::prelude::*;
use lc3_isa::Word;
use crate::bit_count::ones;
use crate::persistent_data_management::flash::Flash;

verus! {

/// Why a paging operation failed.
#[derive(Debug, PartialEq, Eq, Structural)]
pub enum SwapError {
    PrimaryPartitionUninitialized,
    SwapPartitionUninitialized,
    AddressOutOfRange,
    Insufficient_free_space,
}

/// A paging unit over the flash device `storage`. The protection registers
/// of the flash controller, read by the caller, are handed in as `protection`.
pub trait Paging {
    type storage: Flash + Sized;

    type device_addr;

    type device_word;

    /// The internal invariant of the unit.
    spec fn ready(&self) -> bool;

    /// At least one protection register must report a free block.
    fn get_total_free_sectors(&mut self, protection: [u32; 4]) -> u32
        requires
            ones(protection[0] as nat) + ones(protection[1] as nat) + ones(protection[2] as nat)
                + ones(protection[3] as nat) >= 1,
    ;

    fn set_primary_partition(&mut self, num_sectors: u32);

    fn set_swap_spartition(&mut self, num_sectors: u32);

    fn initialize(&mut self, protection: [u32; 4]) -> Result<(), SwapError>;

    fn read_swap(&mut self, addr: Self::device_addr) -> Result<Self::device_word, SwapError>
        requires
            old(self).ready(),
    ;

    fn write_swap(&mut self, addr: Self::device_addr, data: Self::device_word) -> Result<(), SwapError>
        requires
            old(self).ready(),
    ;

    fn read_primary(&mut self, addr: Self::device_addr) -> Result<Word, SwapError>;

    fn write_primary(&mut self, addr: Self::device_addr, data: Self::device_word) -> Result<(), SwapError>;
}

} // verus!
