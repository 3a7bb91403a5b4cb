//! A paging unit that keeps its page table in a metadata sector of the TM4C
//! flash, and the table of free flash sectors it builds at start-up.
use vstd::prelude::*;
use lc3_isa::{Addr, Word};
use crate::bit_count::ones;
use crate::paging_impl::tm4c_flash_paging_config::{
    free_sectors, get_total_free_sectors, total_lc3_address_space_sectors,
};
use crate::persistent_data_management::flash::{erased_sector, Flash};
use crate::persistent_data_management::page::SwapError;

verus! {

/// The sector that holds the paging metadata.
pub const ROOT_METADATA_SECTOR: u32 = 2;

/// Bytes in one paging sector.
pub const SECTOR_SIZE: u32 = 512;

/// Entries of the free sector table.
pub const FREE_SECTOR_TABLE_LEN: usize = 512;

/// The flash sectors that the first `n` bits of protection register `bits`
/// report free, in order: a set bit `i` stands for sectors
/// `base + 4 i` to `base + 4 i + 3`.
pub open spec fn bank_sectors(bits: u32, base: int, n: nat) -> Seq<u16>
    decreases n,
{
    if n == 0 {
        Seq::empty()
    } else {
        let i = n - 1;
        let earlier = bank_sectors(bits, base, i as nat);
        if (bits >> (i as u32)) & 1 == 1 {
            earlier + seq![
                (base + 4 * i) as u16,
                (base + 4 * i + 1) as u16,
                (base + 4 * i + 2) as u16,
                (base + 4 * i + 3) as u16,
            ]
        } else {
            earlier
        }
    }
}

/// The free flash sectors that the four protection registers report, bank
/// by bank; bank `k` covers sectors `128 k` to `128 k + 127`.
pub open spec fn free_sector_list(b0: u32, b1: u32, b2: u32, b3: u32) -> Seq<u16> {
    bank_sectors(b0, 0, 32) + bank_sectors(b1, 128, 32) + bank_sectors(b2, 256, 32)
        + bank_sectors(b3, 384, 32)
}

proof fn lemma_bank_len(bits: u32, base: int, n: nat)
    ensures
        bank_sectors(bits, base, n).len() <= 4 * n,
    decreases n,
{
    if n > 0 {
        lemma_bank_len(bits, base, (n - 1) as nat);
    }
}

/// Whether bit `n` of `input` is set.
fn get_bit_at(input: u32, n: u8) -> (r: bool)
    requires
        n < 32,
    ensures
        r == ((input >> n) & 1 == 1),
{
    proof {
        assert(input & (1u32 << n) != 0 <==> (input >> n) & 1 == 1) by (bit_vector)
            requires
                n < 32,
        ;
    }
    input & (1 << n) != 0
}

/// Appends to `table`, from entry `pos` on, the sectors that protection
/// register `bits` reports free in the bank starting at sector `base`, and
/// returns the entry after the last one written.
fn fill_bank(table: &mut [u16; FREE_SECTOR_TABLE_LEN], pos: usize, bits: u32, base: u16) -> (r:
    usize)
    requires
        pos + 128 <= FREE_SECTOR_TABLE_LEN,
        base <= 384,
    ensures
        r == pos + bank_sectors(bits, base as int, 32).len(),
        final(table)@.subrange(0, pos as int) == old(table)@.subrange(0, pos as int),
        final(table)@.subrange(pos as int, r as int) == bank_sectors(bits, base as int, 32),
{
    let mut pos: usize = pos;
    let ghost start = pos;
    let mut i: u8 = 0;
    while i < 32
        invariant
            i <= 32,
            start + 128 <= FREE_SECTOR_TABLE_LEN,
            base <= 384,
            pos == start + bank_sectors(bits, base as int, i as nat).len(),
            bank_sectors(bits, base as int, i as nat).len() <= 4 * i,
            table@.subrange(0, start as int) == old(table)@.subrange(0, start as int),
            table@.subrange(start as int, pos as int) == bank_sectors(bits, base as int, i as nat),
        decreases 32 - i,
    {
        let ghost before = table@;
        if get_bit_at(bits, i) {
            table[pos] = (i as u16) * 4 + base;
            pos += 1;
            table[pos] = (i as u16) * 4 + 1 + base;
            pos += 1;
            table[pos] = (i as u16) * 4 + 2 + base;
            pos += 1;
            table[pos] = (i as u16) * 4 + 3 + base;
            pos += 1;
        }
        proof {
            assert(table@.subrange(0, start as int) =~= before.subrange(0, start as int));
            assert(table@.subrange(start as int, pos as int) =~= bank_sectors(
                bits,
                base as int,
                (i + 1) as nat,
            ));
        }
        i = i + 1;
    }
    pos
}

/// The table of free flash sectors that the protection registers `b0` to
/// `b3` report, and the number of entries in use.
pub fn free_sector_table(b0: u32, b1: u32, b2: u32, b3: u32) -> (r: (
    [u16; FREE_SECTOR_TABLE_LEN],
    usize,
))
    ensures
        r.1 == free_sector_list(b0, b1, b2, b3).len(),
        r.0@.subrange(0, r.1 as int) == free_sector_list(b0, b1, b2, b3),
{
    let mut free_sector_table: [u16; FREE_SECTOR_TABLE_LEN] = [0; FREE_SECTOR_TABLE_LEN];
    let mut pos: usize = 0;
    proof {
        lemma_bank_len(b0, 0, 32);
        lemma_bank_len(b1, 128, 32);
        lemma_bank_len(b2, 256, 32);
        lemma_bank_len(b3, 384, 32);
    }
    let p0: usize = fill_bank(&mut free_sector_table, pos, b0, 0);
    let ghost t0 = free_sector_table@;
    let p1: usize = fill_bank(&mut free_sector_table, p0, b1, 128);
    let ghost t1 = free_sector_table@;
    let p2: usize = fill_bank(&mut free_sector_table, p1, b2, 256);
    let ghost t2 = free_sector_table@;
    pos = fill_bank(&mut free_sector_table, p2, b3, 384);
    proof {
        let t3 = free_sector_table@;
        assert(t1.subrange(0, p0 as int) =~= t0.subrange(0, p0 as int));
        assert(t2.subrange(0, p1 as int) =~= t1.subrange(0, p1 as int));
        assert(t3.subrange(0, p2 as int) =~= t2.subrange(0, p2 as int));
        assert(t3.subrange(0, p0 as int) =~= t0.subrange(0, p0 as int)) by {
            assert(t3.subrange(0, p2 as int).subrange(0, p0 as int) =~= t3.subrange(0, p0 as int));
            assert(t2.subrange(0, p1 as int).subrange(0, p0 as int) =~= t2.subrange(0, p0 as int));
        }
        assert(t3.subrange(p0 as int, p1 as int) =~= t1.subrange(p0 as int, p1 as int)) by {
            assert(t3.subrange(0, p2 as int).subrange(p0 as int, p1 as int) =~= t3.subrange(
                p0 as int,
                p1 as int,
            ));
            assert(t2.subrange(0, p1 as int).subrange(p0 as int, p1 as int) =~= t2.subrange(
                p0 as int,
                p1 as int,
            ));
        }
        assert(t3.subrange(p1 as int, p2 as int) =~= t2.subrange(p1 as int, p2 as int)) by {
            assert(t3.subrange(0, p2 as int).subrange(p1 as int, p2 as int) =~= t3.subrange(
                p1 as int,
                p2 as int,
            ));
        }
        assert(t3.subrange(0, pos as int) =~= t3.subrange(0, p0 as int) + t3.subrange(
            p0 as int,
            p1 as int,
        ) + t3.subrange(p1 as int, p2 as int) + t3.subrange(p2 as int, pos as int));
    }
    (free_sector_table, pos)
}

/// The paging unit: where its page table sector and swap partition lie, and
/// the flash device.
pub struct Tm4c_flash_page_unit_for_lc3<F: Flash> {
    page_table_sector: u32,
    swap_start_Addr: u32,
    swap_end_addr: u32,
    tm4c_flash_unit: F,
}

impl<F: Flash> Tm4c_flash_page_unit_for_lc3<F> {
    /// The flash device.
    pub closed spec fn flash(&self) -> F {
        self.tm4c_flash_unit
    }

    /// The free sectors, less the metadata sectors, that the protection
    /// registers report.
    pub fn get_total_free_sectors(&mut self, protection: [u32; 4]) -> (r: u32)
        requires
            ones(protection[0] as nat) + ones(protection[1] as nat) + ones(protection[2] as nat)
                + ones(protection[3] as nat) >= 1,
        ensures
            *final(self) == *old(self),
            r as int == free_sectors(protection[0], protection[1], protection[2], protection[3]),
    {
        get_total_free_sectors(protection[0], protection[1], protection[2], protection[3])
    }

    pub fn set_primary_partition(&mut self, num_sectors: u32)
        ensures
            *final(self) == *old(self),
    {
    }

    pub fn set_swap_spartition(&mut self, num_sectors: u32)
        ensures
            *final(self) == *old(self),
    {
    }

    /// Succeeds when the flash has more free sectors than the LC-3 address
    /// space needs: it then erases the flash sector at byte 1024, where the
    /// metadata sector lies, and builds the table of free sectors. The erase
    /// can fail only by leaving the device no longer healthy. Otherwise it
    /// fails with `Insufficient_free_space` and leaves the flash as it was.
    pub fn initialize(&mut self, protection: [u32; 4]) -> (r: Result<(), SwapError>)
        requires
            ones(protection[0] as nat) + ones(protection[1] as nat) + ones(protection[2] as nat)
                + ones(protection[3] as nat) >= 1,
        ensures
            r is Ok <==> total_lc3_address_space_sectors < free_sectors(
                protection[0],
                protection[1],
                protection[2],
                protection[3],
            ),
            r is Err ==> r == Err::<(), SwapError>(SwapError::Insufficient_free_space)
                && final(self).flash() == old(self).flash(),
            final(self).flash().healthy() ==> old(self).flash().healthy(),
            r is Ok && final(self).flash().healthy() ==> final(self).flash().cells()
                == erased_sector(
                old(self).flash().cells(),
                (ROOT_METADATA_SECTOR * SECTOR_SIZE) as u32,
            ),
            r is Ok && !final(self).flash().healthy() ==> final(self).flash().cells()
                == erased_sector(
                old(self).flash().cells(),
                (ROOT_METADATA_SECTOR * SECTOR_SIZE) as u32,
            ) || final(self).flash().cells() == old(self).flash().cells(),
    {
        if total_lc3_address_space_sectors < self.get_total_free_sectors(protection) {
            let out = self.tm4c_flash_unit.Flash_EraseSector(ROOT_METADATA_SECTOR * (SECTOR_SIZE));
            let b0: u32 = protection[0];
            let b1: u32 = protection[1];
            let b2: u32 = protection[2];
            let b3: u32 = protection[3];
            let (free_sector_table, pos) = free_sector_table(b0, b1, b2, b3);
            Ok(())
        } else {
            Err(SwapError::Insufficient_free_space)
        }
    }

    pub fn read_swap(&mut self, addr: Addr) -> (r: Result<Word, SwapError>)
        ensures
            *final(self) == *old(self),
            r == Ok::<Word, SwapError>(4),
    {
        Ok(4)
    }

    pub fn write_swap(&mut self, addr: Addr, data: Word) -> (r: Result<Word, SwapError>)
        ensures
            *final(self) == *old(self),
            r == Ok::<Word, SwapError>(4),
    {
        Ok(4)
    }

    pub fn read_primary(&mut self, addr: Addr) -> (r: Result<(), SwapError>)
        ensures
            *final(self) == *old(self),
            r is Ok,
    {
        Ok(())
    }

    pub fn write_primary(&mut self, data: Word) -> (r: Result<(), SwapError>)
        ensures
            *final(self) == *old(self),
            r is Ok,
    {
        Ok(())
    }

    pub fn commit_changes(&mut self, addr: Addr) -> (r: Result<(), SwapError>)
        ensures
            *final(self) == *old(self),
            r is Ok,
    {
        Ok(())
    }
}

} // verus!
