//! The CMSIS-style flash driver of the TM4C: which word writes and sector
//! erases it issues, and how it commands the flash controller.
//!
//! A word is written only at a word-aligned address of the 256 KB flash, a
//! sector erased only at a 1 KB-aligned one; any other request is ignored.
//! Every operation answers `ARM_DRIVER_ERROR_SPECIFIC`.
use vstd::prelude::*;

verus! {

/// Words one read may ask for.
pub const MAX_READABLE_WORDS: usize = 512;

/// Words that `TM4C_Flash_ProgramData` writes.
pub const MAX_WRITABLE_WORDS: usize = 512;

/// The highest flash address.
pub const FLASH_FMA_OFFSET_MAX: u32 = 0x0003_FFFF;

/// Command: erase the whole flash.
pub const FLASH_FMC_MERASE: u32 = 0x0000_0004;

/// Command: erase a sector.
pub const FLASH_FMC_ERASE: u32 = 0x0000_0002;

/// Command: write a word.
pub const FLASH_FMC_WRITE: u32 = 0x0000_0001;

/// The bit of the boot configuration that selects the write key.
pub const FLASH_BOOTCFG_KEY: u32 = 0x0000_0010;

/// The write key when the key bit of the boot configuration is set.
pub const FLASH_FMC_WRKEY: u32 = 0xA442_0000;

/// The write key when the key bit of the boot configuration is clear.
pub const FLASH_FMC_WRKEY2: u32 = 0x71D5_0000;

/// The driver's status.
pub struct TM4C_FLASH_STATUS {
    pub busy: u8,
    pub error: u8,
    pub reservd: u32,
}

/// A flash sector: its first and last address.
pub struct TM4C_FLASH_SECTOR {
    pub start: u32,
    pub end: u32,
}

/// The layout of the flash.
pub struct TM4C_FLASH_INFO {
    pub flash_sector: TM4C_FLASH_SECTOR,
    pub sector_count: u32,
    pub sector_size: u32,
    pub page_size: u32,
    pub program_unit: u32,
    pub erased_value: u32,
    pub reserved: [u8; 3],
}

/// The answer of a driver operation.
#[derive(Clone, Copy, Debug, PartialEq, Eq, Structural)]
pub enum status_error_codes {
    ARM_DRIVER_OK(u32),
    ARM_DRIVER_ERROR,
    ARM_DRIVER_ERROR_BUSY,
    ARM_DRIVER_ERROR_TIMEOUT,
    ARM_DRIVER_ERROR_UNSUPPORTED,
    ARM_DRIVER_ERROR_PARAMETER,
    ARM_DRIVER_ERROR_SPECIFIC,
}

/// A flash driver.
pub trait Flash<'a> {
    fn TM4C_Flash_Initialize(&mut self) -> status_error_codes;

    fn TM4C_Flash_Uninitialize(&mut self) -> status_error_codes;

    fn TM4C_Flash_ReadData(
        &mut self,
        addr: u32,
        data: [u32; MAX_READABLE_WORDS],
        num_items: u8,
    ) -> status_error_codes;

    fn TM4C_Flash_WriteWord(&mut self, addr: u32, data: u32) -> status_error_codes;

    fn TM4C_Flash_ProgramData(&mut self, addr: u32, data: [u32; MAX_WRITABLE_WORDS]) -> status_error_codes;

    fn TM4C_Flash_EraseSector(&mut self, addr: u32) -> status_error_codes;

    fn TM4C_Flash_EraseChip(&mut self) -> status_error_codes;

    fn TM4C_Flash_GetStatus(&mut self);

    fn TM4C_Flash_GetInfo(&mut self);
}

/// Whether a word may be written at `addr`.
pub open spec fn write_addr_valid(addr: u32) -> bool {
    addr % 4 == 0 && addr <= FLASH_FMA_OFFSET_MAX
}

/// Whether a sector may be erased at `addr`.
pub open spec fn erase_addr_valid(addr: u32) -> bool {
    addr % 1024 == 0 && addr <= FLASH_FMA_OFFSET_MAX
}

/// Whether a word may be written at `addr`: word-aligned, within the flash.
pub fn WriteAddrValid(addr: u32) -> (r: bool)
    ensures
        r == write_addr_valid(addr),
        r == (addr % 4 == 0 && addr < 0x4_0000),
{
    (addr % 4) == 0 && addr <= FLASH_FMA_OFFSET_MAX
}

/// Whether a sector may be erased at `addr`: 1 KB-aligned, within the flash.
pub fn EraseAddrValid(addr: u32) -> (r: bool)
    ensures
        r == erase_addr_valid(addr),
        r == (addr % 1024 == 0 && addr < 0x4_0000),
{
    (addr % 1024) == 0 && addr <= FLASH_FMA_OFFSET_MAX
}

/// The write key that the boot configuration `bootcfg` selects.
pub open spec fn key_for(bootcfg: u32) -> u32 {
    if bootcfg & FLASH_BOOTCFG_KEY > 0 {
        FLASH_FMC_WRKEY
    } else {
        FLASH_FMC_WRKEY2
    }
}

/// The write key that the boot configuration `bootcfg` selects.
pub fn flash_key(bootcfg: u32) -> (r: u32)
    ensures
        r == key_for(bootcfg),
        bootcfg & 0x10u32 != 0 ==> r == 0xA442_0000u32,
        bootcfg & 0x10u32 == 0 ==> r == 0x71D5_0000u32,
{
    if (bootcfg & FLASH_BOOTCFG_KEY) > 0 {
        FLASH_FMC_WRKEY
    } else {
        FLASH_FMC_WRKEY2
    }
}

/// The value of the flash control register that issues `command` under the
/// key that `bootcfg` selects.
pub fn command_word(bootcfg: u32, command: u32) -> (r: u32)
    ensures
        r == key_for(bootcfg) | command,
        bootcfg & 0x10u32 != 0 ==> r == 0xA442_0000u32 | command,
        bootcfg & 0x10u32 == 0 ==> r == 0x71D5_0000u32 | command,
{
    flash_key(bootcfg) | command
}

/// An operation of the flash controller.
#[derive(Clone, Copy, Debug, PartialEq, Eq, Structural)]
pub enum FlashOp {
    /// Write word `data` at `addr`.
    Write { addr: u32, data: u32 },
    /// Erase the sector at `addr`.
    Erase { addr: u32 },
}

/// The operation that writes `data` at `addr`, if the address is valid.
pub fn write_word_op(addr: u32, data: u32) -> (r: Option<FlashOp>)
    ensures
        r == if write_addr_valid(addr) {
            Some(FlashOp::Write { addr, data })
        } else {
            None
        },
{
    if WriteAddrValid(addr) {
        Some(FlashOp::Write { addr, data })
    } else {
        None
    }
}

/// The operation that erases the sector at `addr`, if the address is valid.
pub fn erase_sector_op(addr: u32) -> (r: Option<FlashOp>)
    ensures
        r == if erase_addr_valid(addr) {
            Some(FlashOp::Erase { addr })
        } else {
            None
        },
{
    if EraseAddrValid(addr) {
        Some(FlashOp::Erase { addr })
    } else {
        None
    }
}

/// The word writes of `TM4C_Flash_ProgramData` for words `0..n` of `data`
/// from `addr` on: word `i` goes to `addr + 4 * i` when that address is valid.
pub open spec fn program_ops(addr: u32, data: Seq<u32>, n: int) -> Seq<FlashOp>
    decreases n,
{
    if n <= 0 {
        Seq::empty()
    } else {
        let prev = program_ops(addr, data, n - 1);
        let a = (addr + 4 * (n - 1)) as u32;
        if write_addr_valid(a) {
            prev.push(FlashOp::Write { addr: a, data: data[n - 1] })
        } else {
            prev
        }
    }
}

/// The word writes that program the `MAX_WRITABLE_WORDS` words of `data`
/// from `addr` on, in order.
pub fn program_data_ops(addr: u32, data: &[u32; MAX_WRITABLE_WORDS]) -> (r: Vec<FlashOp>)
    requires
        addr + 4 * (MAX_WRITABLE_WORDS - 1) <= u32::MAX,
    ensures
        r@ == program_ops(addr, data@, MAX_WRITABLE_WORDS as int),
{
    let mut ops: Vec<FlashOp> = Vec::new();
    let mut successfulWrites: u32 = 0;
    while successfulWrites < (MAX_WRITABLE_WORDS as u32)
        invariant
            successfulWrites <= MAX_WRITABLE_WORDS,
            addr + 4 * (MAX_WRITABLE_WORDS - 1) <= u32::MAX,
            ops@ == program_ops(addr, data@, successfulWrites as int),
        decreases MAX_WRITABLE_WORDS - successfulWrites,
    {
        let a: u32 = addr + 4 * successfulWrites;
        match write_word_op(a, data[successfulWrites as usize]) {
            Some(op) => ops.push(op),
            None => {},
        }
        successfulWrites = successfulWrites + 1;
    }
    ops
}

/// The write key follows the key bit (0x10) of the boot configuration and
/// nothing else: 0xA442 when the bit is set, as it is out of reset, 0x71D5
/// when it is clear; so two configurations that agree on that bit select
/// the same key.
pub proof fn law_key_follows_key_bit(bootcfg: u32, other: u32)
    ensures
        bootcfg & 0x10u32 != 0 ==> key_for(bootcfg) == 0xA442_0000u32,
        bootcfg & 0x10u32 == 0 ==> key_for(bootcfg) == 0x71D5_0000u32,
        bootcfg & 0x10u32 == other & 0x10u32 ==> key_for(bootcfg) == key_for(other),
        key_for(0xFFFF_FFFEu32) == 0xA442_0000u32,
{
    assert(0xFFFF_FFFEu32 & 0x10u32 == 0x10u32) by (bit_vector);
}

} // verus!
