//! The LC-3 memory laid out in the TM4C flash.
//!
//! The primary partition starts at flash sector 80 and holds every LC-3
//! address: LC-3 sector `s` (addresses `256 s .. 256 s + 256`) sits in flash
//! sector `80 + s`, two LC-3 words to a 32-bit flash word, the even address in
//! the high half and the odd one in the low half. The swap partition starts
//! at flash sector 300; its slot `i` holds the LC-3 sector `page_table[i]`.
use vstd::prelude::*;
use lc3_isa::{Addr, Word};
use crate::bit_count::{count_ones, lemma_ones_u32, ones};
use crate::persistent_data_management::flash::{status_error_codes, Flash};
use crate::persistent_data_management::page::{Paging, SwapError};

verus! {

pub const PRIMARY_START_SECTOR: u32 = 80;

const PRIMARY_NUM_SECTORS: u32 = 128;

pub const SWAP_START_SECOTR: u32 = 300;

const SWAP_SIZE: u32 = 100;

const SWAP_TABLE_LEN: usize = 100;

/// Flash sectors the LC-3 address space needs.
pub const total_lc3_address_space_sectors: u32 = 256;

/// Flash sectors reserved for metadata.
pub const total_meta_data_sectors: u32 = 4;

/// The flash sector of the primary partition that holds LC-3 sector `s`.
pub open spec fn primary_sector(s: int) -> int {
    PRIMARY_START_SECTOR as int + s
}

/// The byte address of the flash word that holds LC-3 address `a` in the
/// primary partition.
pub open spec fn primary_address(a: int) -> int {
    primary_sector(a / 256) * 512 + 4 * ((a % 256) / 2)
}

/// The byte address that LC-3 address `a` reads from in swap slot `slot`.
pub open spec fn swap_address(slot: int, a: int) -> int {
    (SWAP_START_SECOTR as int + slot) * 512 + a % 512
}

/// The LC-3 word that flash word `w` holds for address `a`: the low half for
/// an odd address, the high half for an even one.
pub open spec fn word_half(w: u32, a: int) -> u16 {
    if a % 2 == 1 {
        (w & 0xFFFFu32) as u16
    } else {
        (w >> 16u32) as u16
    }
}

/// Flash word `w` with the half of LC-3 address `a` replaced by `data`.
pub open spec fn merged(w: u32, a: int, data: u16) -> u32 {
    if a % 2 == 1 {
        ((w & 0xFFFF0000u32) + data as u32) as u32
    } else {
        ((w & 0x0000FFFFu32) + (((data as u32) << 16u32) & 0xFFFF0000u32)) as u32
    }
}

/// The free sectors that the four flash protection registers report, less
/// the metadata sectors: each set bit stands for four sectors.
pub open spec fn free_sectors(b0: u32, b1: u32, b2: u32, b3: u32) -> int {
    4 * (ones(b0 as nat) + ones(b1 as nat) + ones(b2 as nat) + ones(b3 as nat))
        - total_meta_data_sectors as int
}

proof fn lemma_half_of_merged(w: u32, odd: bool, data: u16)
    ensures
        odd ==> ((w & 0xFFFF0000u32) + data as u32) <= u32::MAX,
        !odd ==> ((w & 0x0000FFFFu32) + (((data as u32) << 16u32) & 0xFFFF0000u32)) <= u32::MAX,
        odd ==> ((((w & 0xFFFF0000u32) + data as u32) as u32) & 0xFFFFu32) as u16 == data,
        odd ==> ((((w & 0xFFFF0000u32) + data as u32) as u32) >> 16u32) as u16 == (w >> 16u32) as u16,
        !odd ==> ((((w & 0x0000FFFFu32) + (((data as u32) << 16u32) & 0xFFFF0000u32)) as u32)
            >> 16u32) as u16 == data,
        !odd ==> ((((w & 0x0000FFFFu32) + (((data as u32) << 16u32) & 0xFFFF0000u32)) as u32)
            & 0xFFFFu32) as u16 == (w & 0xFFFFu32) as u16,
{
    assert(((w & 0xFFFF0000u32) + data as u32) <= u32::MAX) by (bit_vector);
    assert(((w & 0x0000FFFFu32) + (((data as u32) << 16u32) & 0xFFFF0000u32)) <= u32::MAX)
        by (bit_vector);
    assert(((((w & 0xFFFF0000u32) + data as u32) as u32) & 0xFFFFu32) as u16 == data)
        by (bit_vector);
    assert(((((w & 0xFFFF0000u32) + data as u32) as u32) >> 16u32) as u16 == (w >> 16u32) as u16)
        by (bit_vector);
    assert(((((w & 0x0000FFFFu32) + (((data as u32) << 16u32) & 0xFFFF0000u32)) as u32)
        >> 16u32) as u16 == data) by (bit_vector);
    assert(((((w & 0x0000FFFFu32) + (((data as u32) << 16u32) & 0xFFFF0000u32)) as u32)
        & 0xFFFFu32) as u16 == (w & 0xFFFFu32) as u16) by (bit_vector);
}

/// The LC-3 sector that holds address `input`.
fn lc3_addr_to_sec_map(input: Word) -> (r: u32)
    ensures
        r as int == input as int / 256,
{
    let offset: u32 = (((input as u32) * 2) - ((input as u32) * 2) % 512) as u32;
    offset / 512
}

/// Whether bit `n` of `input` is set.
fn get_bit_at(input: u32, n: u8) -> (r: bool)
    requires
        n < 32,
    ensures
        r == ((input >> n) & 1 == 1),
{
    proof {
        assert(input & (1u32 << n) != 0 <==> (input >> n) & 1 == 1) by (bit_vector)
            requires
                n < 32,
        ;
    }
    input & (1 << n) != 0
}

/// Every address may go to the swap partition.
fn swap_sector_contains_address(input: Word) -> (r: bool)
    ensures
        r,
{
    true
}

/// The free flash sectors, less the metadata sectors, that the protection
/// registers `b0` to `b3` report. At least one register must report a free
/// block.
pub fn get_total_free_sectors(b0: u32, b1: u32, b2: u32, b3: u32) -> (r: u32)
    requires
        ones(b0 as nat) + ones(b1 as nat) + ones(b2 as nat) + ones(b3 as nat) >= 1,
    ensures
        r as int == free_sectors(b0, b1, b2, b3),
        r as int == 4 * (ones(b0 as nat) + ones(b1 as nat) + ones(b2 as nat) + ones(b3 as nat))
            - 4,
{
    let free_sectors_b0: u32 = count_ones(b0);
    let free_sectors_b1: u32 = count_ones(b1);
    let free_sectors_b2: u32 = count_ones(b2);
    let free_sectors_b3: u32 = count_ones(b3);
    proof {
        lemma_ones_u32(b0);
        lemma_ones_u32(b1);
        lemma_ones_u32(b2);
        lemma_ones_u32(b3);
    }
    4 * (free_sectors_b0 + free_sectors_b1 + free_sectors_b2 + free_sectors_b3)
        - total_meta_data_sectors
}

/// The LC-3 word that the flash answer `word` gives for address `addr`: the
/// half of the word read, or `AddressOutOfRange` when the read failed.
pub fn decode_read(addr: Addr, word: status_error_codes) -> (r: Result<Word, SwapError>)
    ensures
        match word {
            status_error_codes::ARM_DRIVER_OK_READ(inp) => r == Ok::<Word, SwapError>(
                word_half(inp, addr as int),
            ),
            _ => r == Err::<Word, SwapError>(SwapError::AddressOutOfRange),
        },
{
    let mut word_at_addr: Word = 0;
    match word {
        status_error_codes::ARM_DRIVER_OK_READ(inp) => {
            if addr & 1 == 1 {
                word_at_addr = inp as Word;
            } else {
                word_at_addr = (inp >> 16) as Word;
            }
            proof {
                assert(addr & 1 == 1 <==> addr % 2 == 1) by (bit_vector);
                assert(inp as Word == (inp & 0xFFFFu32) as u16) by (bit_vector);
            }
            Ok(word_at_addr)
        },
        _ => Err(SwapError::AddressOutOfRange),
    }
}

/// The flash word to write back for LC-3 address `addr` holding `data`, given
/// the flash answer `word` read there: the word read with the half of `addr`
/// replaced, or `None` when the read failed.
pub fn merge_write(addr: Addr, data: Word, word: status_error_codes) -> (r: Option<u32>)
    ensures
        match word {
            status_error_codes::ARM_DRIVER_OK_READ(inp) => r == Some(merged(inp, addr as int, data)),
            _ => r is None,
        },
{
    match word {
        status_error_codes::ARM_DRIVER_OK_READ(inp) => {
            let mut inp: u32 = inp;
            proof {
                assert(addr & 1 == 1 <==> addr % 2 == 1) by (bit_vector);
                lemma_half_of_merged(inp, addr % 2 == 1, data);
            }
            if addr & 1 == 1 {
                inp = (inp & 0xFFFF0000) + data as u32;
            } else {
                inp = (inp & 0x0000FFFF) + (((data as u32) << 16) & 0xFFFF0000);
            }
            Some(inp)
        },
        _ => None,
    }
}

/// The paging unit: the swap table and the flash device holding both
/// partitions.
pub struct Tm4c_flash_page_unit_for_lc3<F: Flash> {
    page_table: [u32; SWAP_TABLE_LEN],
    swap_start_Addr: u32,
    swap_end_addr: u32,
    num_swap_pages: u32,
    tm4c_flash_unit: F,
}

impl<F: Flash> Tm4c_flash_page_unit_for_lc3<F> {
    /// The flash device.
    pub closed spec fn flash(&self) -> F {
        self.tm4c_flash_unit
    }

    /// The LC-3 sectors in the swap slots in use, by slot.
    pub closed spec fn swap_table(&self) -> Seq<u32> {
        self.page_table@.subrange(0, self.num_swap_pages as int)
    }

    pub closed spec fn wf(&self) -> bool {
        self.num_swap_pages <= SWAP_SIZE
    }

    /// A paging unit over `tm4c_flash_unit` with an empty swap partition.
    pub fn new(tm4c_flash_unit: F) -> (r: Self)
        ensures
            r.wf(),
            r.ready(),
            r.flash() == tm4c_flash_unit,
            r.swap_table() == Seq::<u32>::empty(),
    {
        let r = Tm4c_flash_page_unit_for_lc3 {
            page_table: [0; SWAP_TABLE_LEN],
            swap_start_Addr: 0,
            swap_end_addr: 0,
            num_swap_pages: 0,
            tm4c_flash_unit: tm4c_flash_unit,
        };
        assert(r.swap_table() =~= Seq::<u32>::empty());
        r
    }

    /// The first swap slot that holds LC-3 sector `sector`, if any.
    fn find_swap_slot(&self, sector: u32) -> (r: Option<u32>)
        requires
            self.wf(),
        ensures
            match r {
                Some(i) => i < self.swap_table().len() && self.swap_table()[i as int] == sector
                    && forall|j: int| 0 <= j < i ==> #[trigger] self.swap_table()[j] != sector,
                None => forall|j: int|
                    0 <= j < self.swap_table().len() ==> #[trigger] self.swap_table()[j] != sector,
            },
    {
        let mut i: u32 = 0;
        while i < self.num_swap_pages
            invariant
                self.wf(),
                i <= self.num_swap_pages,
                forall|j: int| 0 <= j < i ==> #[trigger] self.page_table@[j] != sector,
            decreases self.num_swap_pages - i,
        {
            if self.page_table[i as usize] == sector {
                return Some(i);
            }
            i = i + 1;
        }
        None
    }
}

impl<F: Flash> Paging for Tm4c_flash_page_unit_for_lc3<F> {
    type storage = F;

    type device_addr = Addr;

    type device_word = Word;

    closed spec fn ready(&self) -> bool {
        self.wf()
    }

    /// The free sectors, less the metadata sectors, that the protection
    /// registers report.
    fn get_total_free_sectors(&mut self, protection: [u32; 4]) -> (r: u32)
        ensures
            *final(self) == *old(self),
            r as int == free_sectors(protection[0], protection[1], protection[2], protection[3]),
    {
        get_total_free_sectors(protection[0], protection[1], protection[2], protection[3])
    }

    fn set_primary_partition(&mut self, num_sectors: u32)
        ensures
            *final(self) == *old(self),
    {
    }

    fn set_swap_spartition(&mut self, num_sectors: u32)
        ensures
            *final(self) == *old(self),
    {
    }

    fn initialize(&mut self, protection: [u32; 4]) -> (r: Result<(), SwapError>)
        ensures
            *final(self) == *old(self),
            r is Ok,
    {
        Ok(())
    }

    /// Reads LC-3 address `addr` from the swap slot that holds its sector.
    fn read_swap(&mut self, addr: Addr) -> (r: Result<Word, SwapError>)
        ensures
            final(self).wf(),
            final(self).swap_table() == old(self).swap_table(),
            final(self).flash().cells() == old(self).flash().cells(),
            final(self).flash().healthy() ==> old(self).flash().healthy(),
            match r {
                Ok(w) => exists|slot: int|
                    0 <= slot < old(self).swap_table().len() && old(self).swap_table()[slot]
                        == addr as int / 256 && (forall|j: int|
                        0 <= j < slot ==> #[trigger] old(self).swap_table()[j] != addr as int
                            / 256) && old(self).flash().cells().contains_key(
                        swap_address(slot, addr as int) as u32,
                    ) && w == word_half(
                        old(self).flash().cells()[swap_address(slot, addr as int) as u32],
                        addr as int,
                    ),
                Err(e) => e == SwapError::AddressOutOfRange && ((forall|j: int|
                    0 <= j < old(self).swap_table().len() ==> #[trigger] old(self).swap_table()[j]
                        != addr as int / 256) || !final(self).flash().healthy()),
            },
            (forall|j: int|
                0 <= j < old(self).swap_table().len() ==> #[trigger] old(self).swap_table()[j]
                    != addr as int / 256) ==> r == Err::<Word, SwapError>(
                SwapError::AddressOutOfRange,
            ) && *final(self) == *old(self),
    {
        let sector: u32 = lc3_addr_to_sec_map(addr);
        match self.find_swap_slot(sector) {
            Some(flag) => {
                let physical_sector: u32 = SWAP_START_SECOTR + flag;
                let physical_addr: u32 = (physical_sector * 512) + ((addr as u32) % 512);
                let word = self.tm4c_flash_unit.Flash_ReadData(physical_addr, 1);
                decode_read(addr, word)
            },
            None => Err(SwapError::AddressOutOfRange),
        }
    }

    /// Writes `data` at LC-3 address `addr` in the swap slot that holds its
    /// sector, keeping the other half of the flash word.
    fn write_swap(&mut self, addr: Addr, data: Word) -> (r: Result<(), SwapError>)
        ensures
            final(self).wf(),
            final(self).swap_table() == old(self).swap_table(),
            final(self).flash().healthy() ==> old(self).flash().healthy(),
            match r {
                Ok(()) => exists|slot: int|
                    0 <= slot < old(self).swap_table().len() && old(self).swap_table()[slot]
                        == addr as int / 256 && (forall|j: int|
                        0 <= j < slot ==> #[trigger] old(self).swap_table()[j] != addr as int
                            / 256) && ({
                        let p = swap_address(slot, addr as int) as u32;
                        &&& old(self).flash().cells().contains_key(p)
                        &&& final(self).flash().cells().dom() == old(self).flash().cells().dom()
                        &&& forall|k: u32|
                            k != p && old(self).flash().cells().contains_key(k)
                                ==> #[trigger] final(self).flash().cells()[k] == old(
                                self).flash().cells()[k]
                        &&& final(self).flash().cells()[p] == merged(
                            old(self).flash().cells()[p],
                            addr as int,
                            data,
                        ) || (!final(self).flash().healthy() && final(self).flash().cells()
                            == old(self).flash().cells())
                    }),
                Err(e) => e == SwapError::AddressOutOfRange && final(self).flash().cells()
                    == old(self).flash().cells() && ((forall|j: int|
                    0 <= j < old(self).swap_table().len() ==> #[trigger] old(self).swap_table()[j]
                        != addr as int / 256) || !final(self).flash().healthy()),
            },
            (forall|j: int|
                0 <= j < old(self).swap_table().len() ==> #[trigger] old(self).swap_table()[j]
                    != addr as int / 256) ==> r == Err::<(), SwapError>(
                SwapError::AddressOutOfRange,
            ) && *final(self) == *old(self),
    {
        let sector: u32 = lc3_addr_to_sec_map(addr);
        match self.find_swap_slot(sector) {
            Some(flag) => {
                let physical_sector: u32 = SWAP_START_SECOTR + flag;
                let physical_addr: u32 = (physical_sector * 512) + ((addr as u32) % 512);
                let word = self.tm4c_flash_unit.Flash_ReadData(physical_addr, 1);
                match merge_write(addr, data, word) {
                    Some(inp) => {
                        let _ = self.tm4c_flash_unit.Flash_WriteWord(physical_addr, inp);
                        Ok(())
                    },
                    None => Err(SwapError::AddressOutOfRange),
                }
            },
            None => Err(SwapError::AddressOutOfRange),
        }
    }

    /// Reads LC-3 address `addr` from the primary partition.
    fn read_primary(&mut self, addr: Addr) -> (r: Result<Word, SwapError>)
        ensures
            final(self).swap_table() == old(self).swap_table(),
            final(self).wf() == old(self).wf(),
            final(self).flash().cells() == old(self).flash().cells(),
            final(self).flash().healthy() ==> old(self).flash().healthy(),
            match r {
                Ok(w) => old(self).flash().cells().contains_key(primary_address(addr as int) as u32)
                    && w == word_half(
                    old(self).flash().cells()[primary_address(addr as int) as u32],
                    addr as int,
                ),
                Err(e) => e == SwapError::AddressOutOfRange && !final(self).flash().healthy(),
            },
    {
        let sector: u32 = lc3_addr_to_sec_map(addr);
        let physical_sector: u32 = PRIMARY_START_SECTOR + sector;
        let mut physical_addr: u32 = (physical_sector * 512) + (((addr as u32) * 2) % 512);
        if physical_addr & 0x01 == 0 && physical_addr % 4 != 0 {
            physical_addr -= 2;
        }
        proof {
            assert(physical_addr & 0x01 == 0 <==> physical_addr % 2 == 0) by (bit_vector);
        }
        assert(physical_addr as int == primary_address(addr as int));
        let word = self.tm4c_flash_unit.Flash_ReadData(physical_addr, 1);
        decode_read(addr, word)
    }

    /// Writes `data` at LC-3 address `addr` in the primary partition, keeping
    /// the other half of the flash word. The status of the flash write is not
    /// inspected: `Ok` means that the word was read and a write issued, which
    /// failed only if the device is no longer healthy.
    fn write_primary(&mut self, addr: Addr, data: Word) -> (r: Result<(), SwapError>)
        ensures
            final(self).swap_table() == old(self).swap_table(),
            final(self).wf() == old(self).wf(),
            final(self).flash().healthy() ==> old(self).flash().healthy(),
            ({
                let p = primary_address(addr as int) as u32;
                match r {
                    Ok(()) => {
                        &&& old(self).flash().cells().contains_key(p)
                        &&& final(self).flash().cells().dom() == old(self).flash().cells().dom()
                        &&& forall|k: u32|
                            k != p && old(self).flash().cells().contains_key(k)
                                ==> #[trigger] final(self).flash().cells()[k] == old(
                                self).flash().cells()[k]
                        &&& final(self).flash().cells()[p] == merged(
                            old(self).flash().cells()[p],
                            addr as int,
                            data,
                        ) || (!final(self).flash().healthy() && final(self).flash().cells()
                            == old(self).flash().cells())
                    },
                    Err(e) => e == SwapError::AddressOutOfRange && final(self).flash().cells()
                        == old(self).flash().cells() && !final(self).flash().healthy(),
                }
            }),
    {
        let sector: u32 = lc3_addr_to_sec_map(addr);
        let physical_sector: u32 = PRIMARY_START_SECTOR + sector;
        let mut physical_addr: u32 = (physical_sector * 512) + (((addr as u32) * 2) % 512);
        if physical_addr & 0x01 == 0 && physical_addr % 4 != 0 {
            physical_addr -= 2;
        }
        proof {
            assert(physical_addr & 0x01 == 0 <==> physical_addr % 2 == 0) by (bit_vector);
        }
        assert(physical_addr as int == primary_address(addr as int));
        let word = self.tm4c_flash_unit.Flash_ReadData(physical_addr, 1);
        match merge_write(addr, data, word) {
            Some(inp) => {
                let ghost before = self.tm4c_flash_unit.cells();
                let status = self.tm4c_flash_unit.Flash_WriteWord(physical_addr, inp);
                proof {
                    if status is ARM_DRIVER_OK_WRITE {
                        assert(self.tm4c_flash_unit.cells()[physical_addr] == inp);
                    }
                }
                Ok(())
            },
            None => Err(SwapError::AddressOutOfRange),
        }
    }
}

} // verus!

verus! {

/// After a write to LC-3 address `a` reaches the primary partition, reading
/// `a` gives the word written and every other LC-3 address reads as before,
/// the one that shares its flash word included.
pub proof fn law_primary_read_after_write(cells: Map<u32, u32>, a: u16, d: u16, b: u16)
    requires
        cells.contains_key(primary_address(a as int) as u32),
        cells.contains_key(primary_address(b as int) as u32),
    ensures
        ({
            let pa = primary_address(a as int) as u32;
            let pb = primary_address(b as int) as u32;
            let after = cells.insert(pa, merged(cells[pa], a as int, d));
            word_half(after[pb], b as int) == if b == a {
                d
            } else {
                word_half(cells[pb], b as int)
            }
        }),
{
    let pa = primary_address(a as int) as u32;
    let pb = primary_address(b as int) as u32;
    assert(primary_address(a as int) < 0x1_0000_0000);
    assert(primary_address(b as int) < 0x1_0000_0000);
    lemma_half_of_merged(cells[pa], a as int % 2 == 1, d);
    if a as int / 2 == b as int / 2 {
        assert(pa == pb);
        if b != a {
            assert(a as int % 2 != b as int % 2);
        }
    } else {
        assert(pa != pb);
    }
}

/// The primary partition starts at byte 40960 (flash sector 80 of 512
/// bytes) and holds LC-3 addresses `2 k` and `2 k + 1` in its `k`-th word:
/// two addresses share a flash word exactly when they differ only in their
/// lowest bit. The even address reads the high half, the odd one the low
/// half.
pub proof fn law_primary_layout(a: u16, b: u16, w: u32)
    ensures
        primary_address(a as int) == 40960 + 4 * (a as int / 2),
        primary_address(a as int) == primary_address(b as int) <==> a as int / 2 == b as int / 2,
        a as int % 2 == 1 ==> word_half(w, a as int) == (w & 0xFFFFu32) as u16,
        a as int % 2 == 0 ==> word_half(w, a as int) == (w >> 16u32) as u16,
{
    let x = a as int;
    assert((x / 256) * 512 + 4 * ((x % 256) / 2) == 4 * (x / 2)) by (nonlinear_arith)
        requires
            0 <= x,
    {
        assert(x == 256 * (x / 256) + x % 256);
        assert(x % 256 == 2 * ((x % 256) / 2) + (x % 256) % 2);
        assert(x / 2 == 128 * (x / 256) + (x % 256) / 2);
    }
    let y = b as int;
    assert((y / 256) * 512 + 4 * ((y % 256) / 2) == 4 * (y / 2)) by (nonlinear_arith)
        requires
            0 <= y,
    {
        assert(y == 256 * (y / 256) + y % 256);
        assert(y % 256 == 2 * ((y % 256) / 2) + (y % 256) % 2);
        assert(y / 2 == 128 * (y / 256) + (y % 256) / 2);
    }
}

} // verus!
