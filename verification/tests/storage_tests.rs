use std::collections::HashMap;
use std::marker::PhantomData;

use lc3_tm4c::bit_count::count_ones;
use lc3_tm4c::flash::{fill_step, program_start, ProgramCursor, FlashStorage, Read, WriteErase, ERASED_WORD};
use lc3_tm4c::memory_impl::tm4c_memory_impl::{tm4c_lc3_memory, UNREADABLE_WORD};
use lc3_tm4c::memory_trait_RAM_flash::RAM_backed_flash_memory;
use lc3_tm4c::paging::{RAM_Pages, RAM_backed_flash};
use lc3_tm4c::paging_impl::tm4c_flash_page_impl::free_sector_table;
use lc3_tm4c::paging_impl::tm4c_flash_paging_config::{
    decode_read, get_total_free_sectors, merge_write, Tm4c_flash_page_unit_for_lc3,
};
use lc3_tm4c::persistent_data_management::flash::{status_error_codes, Flash, MAX_WRITABLE_WORDS};
use lc3_tm4c::persistent_data_management::page::{Paging, SwapError};

/// A flash storage region held in a vector: erasing sets a page to all ones,
/// programming can only clear bits.
struct MemFlash {
    words: Vec<u32>,
    erases: usize,
}

impl MemFlash {
    fn new(pages: usize) -> MemFlash {
        MemFlash { words: vec![ERASED_WORD; pages * 256], erases: 0 }
    }
}

impl FlashStorage for MemFlash {
    // Only the verifier reads this function; it is never called.
    fn storage_words(&self) -> vstd::seq::Seq<u32> {
        unreachable!()
    }

    // Only the verifier reads this function; it is never called. Every
    // operation of this device succeeds.
    fn healthy(&self) -> bool {
        true
    }
}

impl Read for MemFlash {
    type Error = u32;

    fn read<WORD: From<u32>>(&self, addr: usize) -> Result<WORD, u32> {
        Ok(WORD::from(self.words[addr / 4]))
    }

    fn read_page(&mut self, address: usize) -> [u32; 256] {
        let first = (address / 1024) * 256;
        let mut page = [0u32; 256];
        page.copy_from_slice(&self.words[first..first + 256]);
        page
    }
}

impl WriteErase for MemFlash {
    type Error = u32;
    type Status = u32;

    fn status(&self) -> Result<u32, u32> {
        Ok(0)
    }

    fn erase_page(&mut self, address: usize) -> Result<(), u32> {
        let first = (address / 1024) * 256;
        for w in &mut self.words[first..first + 256] {
            *w = ERASED_WORD;
        }
        self.erases += 1;
        Ok(())
    }

    fn program_word(&mut self, address: usize, value: u32) -> Result<(), u32> {
        self.words[address / 4] &= value;
        Ok(())
    }

    fn program_page(&mut self, address: usize, data: &[u32]) -> Result<(), u32> {
        for (i, d) in data.iter().enumerate() {
            self.words[address / 4 + i] &= *d;
        }
        Ok(())
    }
}

/// A CMSIS-style flash device whose words live in a map.
struct MapFlash {
    cells: HashMap<u32, u32>,
}

impl MapFlash {
    /// Every word of the primary partition present and erased.
    fn with_primary() -> MapFlash {
        let mut cells = HashMap::new();
        let mut a: u32 = 80 * 512;
        while a < (80 + 256) * 512 {
            cells.insert(a, 0xFFFF_FFFF);
            a += 4;
        }
        MapFlash { cells }
    }
}

impl Flash for MapFlash {
    // Only the verifier reads this function; it is never called.
    fn cells(&self) -> vstd::map::Map<u32, u32> {
        unreachable!()
    }

    // Only the verifier reads this function; it is never called.
    fn healthy(&self) -> bool {
        unreachable!()
    }

    fn Flash_Initialize(&mut self) -> status_error_codes {
        status_error_codes::ARM_DRIVER_ERROR_UNSUPPORTED
    }

    fn Flash_Uninitialize(&mut self) -> status_error_codes {
        status_error_codes::ARM_DRIVER_ERROR_UNSUPPORTED
    }

    fn Flash_ReadData(&mut self, addr: u32, _num_items: u8) -> status_error_codes {
        match self.cells.get(&addr) {
            Some(v) => status_error_codes::ARM_DRIVER_OK_READ(*v),
            None => status_error_codes::ARM_DRIVER_ERROR_PARAMETER,
        }
    }

    fn Flash_WriteWord(&mut self, addr: u32, data: u32) -> status_error_codes {
        if self.cells.contains_key(&addr) {
            self.cells.insert(addr, data);
            status_error_codes::ARM_DRIVER_OK_WRITE
        } else {
            status_error_codes::ARM_DRIVER_ERROR_PARAMETER
        }
    }

    fn Flash_ProgramData(&mut self, _addr: u32, _data: [usize; MAX_WRITABLE_WORDS]) -> status_error_codes {
        status_error_codes::ARM_DRIVER_ERROR_UNSUPPORTED
    }

    fn Flash_EraseSector(&mut self, addr: u32) -> status_error_codes {
        for (k, v) in self.cells.iter_mut() {
            if addr <= *k && *k < addr + 1024 {
                *v = 0xFFFF_FFFF;
            }
        }
        status_error_codes::ARM_DRIVER_OK_ERASE
    }

    fn Flash_EraseChip(&mut self) -> status_error_codes {
        status_error_codes::ARM_DRIVER_ERROR_UNSUPPORTED
    }

    fn Flash_GetStatus(&mut self) {}

    fn Flash_GetInfo(&mut self) {}
}

fn cache(pages: usize) -> RAM_Pages<MemFlash, u32> {
    RAM_Pages::new(MemFlash::new(pages))
}

#[test]
fn cache_starts_empty_over_erased_flash() {
    let mut c = cache(4);
    assert_eq!(c.valid, [false, false]);
    assert_eq!(c.read_word(0), ERASED_WORD);
    assert_eq!(c.read_word(4092), ERASED_WORD);
}

#[test]
fn cache_reads_back_a_written_word() {
    let mut c = cache(4);
    c.write_word(8, 0x1234_5678);
    assert_eq!(c.read_word(8), 0x1234_5678);
    assert_eq!(c.read_word(4), ERASED_WORD);
    assert_eq!(c.read_word(12), ERASED_WORD);
}

#[test]
fn cache_keeps_words_across_evictions() {
    let mut c = cache(4);
    c.write_word(0, 1);
    c.write_word(1024, 2);
    c.write_word(2048, 3);
    c.write_word(3072, 4);
    assert_eq!(c.read_word(0), 1);
    assert_eq!(c.read_word(1024), 2);
    assert_eq!(c.read_word(2048), 3);
    assert_eq!(c.read_word(3072), 4);
    assert!(c.flash_controller.erases > 0);
}

#[test]
fn cache_write_back_reaches_flash() {
    // The first two pages take the free slots in order; the third evicts
    // the page in the first slot.
    let mut c = cache(4);
    c.write_word(4, 0xAB);
    c.write_word(1024, 0xCD);
    c.write_word(2048, 0xEF);
    assert_eq!(c.indices, [2, 1]);
    assert_eq!(c.flash_controller.words[1], 0xAB);
    assert_eq!(c.flash_controller.words[256], ERASED_WORD);
    assert_eq!(c.flash_controller.erases, 1);
}

#[test]
fn cache_page_round_trip() {
    let mut c = cache(4);
    let mut data = [0u32; 256];
    for (i, d) in data.iter_mut().enumerate() {
        *d = i as u32 * 3;
    }
    c.write_page(1024 + 40, data);
    assert_eq!(c.read_page(1024), data);
    assert_eq!(c.read_word(1024 + 4 * 7), 21);
}

#[test]
fn cache_commit_keeps_memory() {
    let mut c = cache(4);
    c.write_word(16, 99);
    c.commit_page();
    assert_eq!(c.read_word(16), 99);
}

fn lc3_memory() -> RAM_backed_flash_memory<RAM_Pages<MemFlash, u32>, MemFlash, u32> {
    RAM_backed_flash_memory::new(cache(128), 7)
}

#[test]
fn lc3_memory_reads_back_a_written_word() {
    let mut m = lc3_memory();
    m.write_word(0x3000, 0xBEEF);
    assert_eq!(m.read_word(0x3000), 0xBEEF);
}

#[test]
fn lc3_memory_write_keeps_the_neighbouring_word() {
    let mut m = lc3_memory();
    m.write_word(0x3000, 0x1111);
    m.write_word(0x3001, 0x2222);
    assert_eq!(m.read_word(0x3000), 0x1111);
    assert_eq!(m.read_word(0x3001), 0x2222);
    assert_eq!(m.read_word(0x3002), 0xFFFF);
}

#[test]
fn lc3_memory_covers_the_whole_address_space() {
    let mut m = lc3_memory();
    m.write_word(0x0000, 1);
    m.write_word(0xFFFF, 2);
    m.write_word(0x8000, 3);
    assert_eq!(m.read_word(0x0000), 1);
    assert_eq!(m.read_word(0xFFFF), 2);
    assert_eq!(m.read_word(0x8000), 3);
}

#[test]
fn lc3_memory_commit_keeps_words() {
    let mut m = lc3_memory();
    m.write_word(0x0200, 0x0F0F);
    m.commit_page(0, &[0; 256]);
    assert_eq!(m.read_word(0x0200), 0x0F0F);
    assert_eq!(m.read_word(0x0000), 0);
    let mut page = [0u16; 256];
    page[0] = 0x1234;
    page[255] = 0x4321;
    m.commit_page(2, &page);
    assert_eq!(m.read_word(0x0200), 0x1234);
    assert_eq!(m.read_word(0x02FF), 0x4321);
    assert_eq!(m.read_word(0x0201), 0);
    m.reset();
    assert_eq!(m.read_word(0x0200), 0x1234);
    assert_eq!(m.read_word(0x02FF), 0x4321);
    assert_eq!(m.read_word(0x0000), 0);
}

#[test]
fn lc3_memory_reset_drops_uncommitted_writes() {
    let mut m = lc3_memory();
    m.write_word(0x3000, 5);
    m.write_word(0x3000, 6);
    m.write_word(0x3001, 7);
    m.write_word(0x8000, 8);
    assert_eq!(m.read_word(0x3000), 6);
    m.reset();
    assert_eq!(m.read_word(0x3000), 0xFFFF);
    assert_eq!(m.read_word(0x3001), 0xFFFF);
    assert_eq!(m.read_word(0x8000), 0xFFFF);
}

#[test]
fn lc3_memory_reset_returns_to_the_last_commit() {
    let mut m = lc3_memory();
    let mut page = [0u16; 256];
    page[0x10] = 0xAAAA;
    m.write_word(0x3010, 1);
    m.write_word(0x4000, 2);
    m.commit_page(0x30, &page);
    m.write_word(0x3010, 3);
    m.write_word(0x3011, 4);
    assert_eq!(m.read_word(0x3010), 3);
    m.reset();
    assert_eq!(m.read_word(0x3010), 0xAAAA);
    assert_eq!(m.read_word(0x3011), 0);
    assert_eq!(m.read_word(0x4000), 0xFFFF);
}

#[test]
fn lc3_memory_metadata() {
    let mut m = lc3_memory();
    assert_eq!(m.get_program_metadata(), 7);
    m.set_program_metadata(9);
    assert_eq!(m.get_program_metadata(), 9);
}

#[test]
fn free_sectors_counts_four_per_bit_less_metadata() {
    assert_eq!(get_total_free_sectors(0xFFFF_FFFF, 0xFFFF_FFFF, 0xFFFF_FFFF, 0xFFFF_FFFF), 508);
    assert_eq!(get_total_free_sectors(1, 0, 0, 0), 0);
    assert_eq!(get_total_free_sectors(0b1011, 0x8000_0000, 0, 0xF0), 4 * 8 - 4);
}

#[test]
fn free_sector_table_lists_four_sectors_per_bit() {
    let (table, n) = free_sector_table(0b101, 0, 1, 0x8000_0000);
    assert_eq!(n, 16);
    assert_eq!(&table[0..16], &[0, 1, 2, 3, 8, 9, 10, 11, 256, 257, 258, 259, 508, 509, 510, 511]);
    let (_, none) = free_sector_table(0, 0, 0, 0);
    assert_eq!(none, 0);
}

#[test]
fn decode_read_picks_the_half_of_the_address() {
    let w = status_error_codes::ARM_DRIVER_OK_READ(0xAAAA_5555);
    assert_eq!(decode_read(0x3001, w), Ok(0x5555));
    let w = status_error_codes::ARM_DRIVER_OK_READ(0xAAAA_5555);
    assert_eq!(decode_read(0x3000, w), Ok(0xAAAA));
    assert_eq!(decode_read(0x3000, status_error_codes::ARM_DRIVER_ERROR), Err(SwapError::AddressOutOfRange));
}

#[test]
fn merge_write_replaces_one_half() {
    let w = status_error_codes::ARM_DRIVER_OK_READ(0xAAAA_5555);
    assert_eq!(merge_write(0x11, 0x1234, w), Some(0xAAAA_1234));
    let w = status_error_codes::ARM_DRIVER_OK_READ(0xAAAA_5555);
    assert_eq!(merge_write(0x10, 0x1234, w), Some(0x1234_5555));
    assert_eq!(merge_write(0x10, 0x1234, status_error_codes::ARM_DRIVER_ERROR_BUSY), None);
}

#[test]
fn primary_partition_reads_back_a_write() {
    let mut unit = Tm4c_flash_page_unit_for_lc3::new(MapFlash::with_primary());
    for a in [0u16, 1, 2, 255, 256, 0x3000, 0x3001, 0xFFFE, 0xFFFF] {
        assert_eq!(unit.write_primary(a, a), Ok(()));
        assert_eq!(unit.read_primary(a), Ok(a));
    }
    assert_eq!(unit.read_primary(0x3000), Ok(0x3000));
    assert_eq!(unit.read_primary(0x3002), Ok(0xFFFF));
}

#[test]
fn primary_partition_word_layout() {
    let mut flash = MapFlash::with_primary();
    flash.cells.insert(80 * 512 + 4, 0x1234_ABCD);
    let mut unit = Tm4c_flash_page_unit_for_lc3::new(flash);
    assert_eq!(unit.read_primary(2), Ok(0x1234));
    assert_eq!(unit.read_primary(3), Ok(0xABCD));
}

#[test]
fn primary_partition_out_of_flash_is_an_error() {
    let mut unit = Tm4c_flash_page_unit_for_lc3::new(MapFlash { cells: HashMap::new() });
    assert_eq!(unit.read_primary(0x3000), Err(SwapError::AddressOutOfRange));
    assert_eq!(unit.write_primary(0x3000, 5), Err(SwapError::AddressOutOfRange));
}

#[test]
fn swap_partition_is_empty() {
    let mut unit = Tm4c_flash_page_unit_for_lc3::new(MapFlash::with_primary());
    assert_eq!(unit.read_swap(0x3000), Err(SwapError::AddressOutOfRange));
    assert_eq!(unit.write_swap(0x3000, 1), Err(SwapError::AddressOutOfRange));
}

#[test]
fn paging_unit_reports_free_sectors() {
    let mut unit = Tm4c_flash_page_unit_for_lc3::new(MapFlash::with_primary());
    assert_eq!(unit.get_total_free_sectors([0xFF, 0, 0, 0]), 28);
    assert_eq!(unit.initialize([0, 0, 0, 1]), Ok(()));
}

#[test]
fn tm4c_memory_reads_and_writes_primary() {
    let mut m = tm4c_lc3_memory::new(Tm4c_flash_page_unit_for_lc3::new(MapFlash::with_primary()));
    m.write_word(0x4000, 0x4242);
    assert_eq!(m.read_word(0x4000), 0x4242);
    assert_eq!(m.read_word(0x4001), 0xFFFF);
}

#[test]
fn tm4c_memory_reset_takes_back_writes() {
    let mut m = tm4c_lc3_memory::new(Tm4c_flash_page_unit_for_lc3::new(MapFlash::with_primary()));
    m.write_word(0x4000, 0x4242);
    m.write_word(0x4001, 0x1111);
    m.write_word(0x4000, 0x5353);
    m.write_word(0x7FFF, 0x0001);
    assert_eq!(m.read_word(0x4000), 0x5353);
    m.reset();
    assert_eq!(m.read_word(0x4000), 0xFFFF);
    assert_eq!(m.read_word(0x4001), 0xFFFF);
    assert_eq!(m.read_word(0x7FFF), 0xFFFF);
    assert_eq!(m.journal.len(), 0);
    m.write_word(0x4002, 0x0202);
    assert_eq!(m.read_word(0x4002), 0x0202);
}

#[test]
fn tm4c_memory_unreadable_word() {
    let mut m = tm4c_lc3_memory::new(Tm4c_flash_page_unit_for_lc3::new(MapFlash { cells: HashMap::new() }));
    m.write_word(0x4000, 0x4242);
    assert_eq!(m.read_word(0x4000), UNREADABLE_WORD);
}

#[test]
fn count_ones_counts_set_bits() {
    assert_eq!(count_ones(0), 0);
    assert_eq!(count_ones(0b1011), 3);
    assert_eq!(count_ones(0x8000_0001), 2);
    assert_eq!(count_ones(0xFFFF_FFFF), 32);
}

#[test]
fn fill_step_buffers_each_word_once_in_order() {
    let c = program_start(0x78, 3);
    assert_eq!(c, ProgramCursor { next: 0, words_left: 3, flash_address: 0x2_0078 });
    let (c, fill) = fill_step(c, 0);
    assert_eq!(fill, Some((30, 0)));
    let (c, fill) = fill_step(c, 1);
    assert_eq!(fill, Some((31, 1)));
    assert_eq!(c, ProgramCursor { next: 2, words_left: 1, flash_address: 0x2_0080 });
    // At the start of a block a busy buffer stops the filling.
    let (c, fill) = fill_step(c, 1);
    assert_eq!(fill, None);
    assert_eq!(c.next, 2);
    let (c, fill) = fill_step(c, 0);
    assert_eq!(fill, Some((0, 2)));
    assert_eq!(c.words_left, 0);
    let (_, fill) = fill_step(c, 0);
    assert_eq!(fill, None);
}
