//! The driver interface of a flash device, in the style of the CMSIS flash
//! driver: every operation answers with a status code.
use vstd::prelude::*;

verus! {

/// Words that one `Flash_ProgramData` call programs.
pub const MAX_WRITABLE_WORDS: usize = 128;

/// Bytes in one erase sector.
pub const FLASH_SECTOR_BYTES: u32 = 1024;

/// The words `cells` holds after the sector that starts at byte address
/// `addr` is erased: every word in it reads all ones, the others as before.
pub open spec fn erased_sector(cells: Map<u32, u32>, addr: u32) -> Map<u32, u32> {
    Map::new(
        |k: u32| cells.contains_key(k),
        |k: u32|
            if addr <= k < addr + FLASH_SECTOR_BYTES {
                0xFFFF_FFFFu32
            } else {
                cells[k]
            },
    )
}

/// The answer of a flash driver operation.
#[derive(Debug, PartialEq, Eq, Structural)]
pub enum status_error_codes {
    ARM_DRIVER_OK_READ(u32),
    ARM_DRIVER_OK_WRITE,
    ARM_DRIVER_OK_ERASE,
    ARM_DRIVER_ERROR,
    ARM_DRIVER_ERROR_BUSY,
    ARM_DRIVER_ERROR_TIMEOUT,
    ARM_DRIVER_ERROR_UNSUPPORTED,
    ARM_DRIVER_ERROR_PARAMETER,
    ARM_DRIVER_ERROR_SPECIFIC,
}

/// A flash device. Its contents are the 32-bit words readable at its byte
/// addresses.
pub trait Flash {
    /// The word read at each readable byte address.
    spec fn cells(&self) -> Map<u32, u32>;

    /// Every read, write and erase asked of the device so far succeeded.
    spec fn healthy(&self) -> bool;

    fn Flash_Initialize(&mut self) -> status_error_codes;

    fn Flash_Uninitialize(&mut self) -> status_error_codes;

    /// Reads the word at `addr`. A successful read answers with the word the
    /// device holds there; the contents do not change. A failed one leaves the
    /// device no longer healthy.
    fn Flash_ReadData(&mut self, addr: u32, num_items: u8) -> (r: status_error_codes)
        ensures
            final(self).cells() == old(self).cells(),
            final(self).healthy() ==> old(self).healthy() && r is ARM_DRIVER_OK_READ,
            r is ARM_DRIVER_OK_READ ==> final(self).healthy() == old(self).healthy(),
            r matches status_error_codes::ARM_DRIVER_OK_READ(v) ==> old(self).cells().contains_key(
                addr,
            ) && v == old(self).cells()[addr],
    ;

    /// Writes `data` at `addr`. A successful write stores it there; an
    /// unsuccessful one leaves the contents as they were, and the device no
    /// longer healthy.
    fn Flash_WriteWord(&mut self, addr: u32, data: u32) -> (r: status_error_codes)
        ensures
            final(self).healthy() ==> old(self).healthy() && r is ARM_DRIVER_OK_WRITE,
            r is ARM_DRIVER_OK_WRITE ==> final(self).healthy() == old(self).healthy(),
            r is ARM_DRIVER_OK_WRITE ==> final(self).cells() == old(self).cells().insert(addr, data),
            !(r is ARM_DRIVER_OK_WRITE) ==> final(self).cells() == old(self).cells(),
    ;

    fn Flash_ProgramData(&mut self, addr: u32, data: [usize; MAX_WRITABLE_WORDS]) -> status_error_codes;

    /// Erases the sector that starts at `addr`. A successful erase leaves
    /// every word of the sector reading all ones; an unsuccessful one leaves
    /// the contents as they were, and the device no longer healthy.
    fn Flash_EraseSector(&mut self, addr: u32) -> (r: status_error_codes)
        ensures
            final(self).healthy() ==> old(self).healthy() && r is ARM_DRIVER_OK_ERASE,
            r is ARM_DRIVER_OK_ERASE ==> final(self).healthy() == old(self).healthy(),
            r is ARM_DRIVER_OK_ERASE ==> final(self).cells() == erased_sector(old(self).cells(), addr),
            !(r is ARM_DRIVER_OK_ERASE) ==> final(self).cells() == old(self).cells(),
    ;

    fn Flash_EraseChip(&mut self) -> status_error_codes;

    fn Flash_GetStatus(&mut self);

    fn Flash_GetInfo(&mut self);
}

} // verus!
