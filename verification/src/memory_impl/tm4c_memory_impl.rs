//! LC-3 memory that reads and writes the primary partition of the flash.
//!
//! Words stored with `write_word` do not last across a reset: a journal keeps
//! the word that each write replaced, and `reset` writes those words back,
//! the latest first.
use vstd::prelude::*;
use lc3_isa::{Addr, Word};
use crate::paging_impl::tm4c_flash_paging_config::{
    merged, primary_address, word_half, Tm4c_flash_page_unit_for_lc3,
};
use crate::persistent_data_management::flash::Flash;
use crate::persistent_data_management::page::Paging;

verus! {

/// Word that a read answers with when the flash could not be read.
pub const UNREADABLE_WORD: Word = 0xFFFF;

/// The flash words `cells` with the write of LC-3 word `w` at address `a`
/// into the primary partition, when the flash holds that word.
pub open spec fn primary_written(cells: Map<u32, u32>, a: int, w: u16) -> Map<u32, u32> {
    let p = primary_address(a) as u32;
    if cells.contains_key(p) {
        cells.insert(p, merged(cells[p], a, w))
    } else {
        cells
    }
}

/// The flash words `cells` with the writes that `journal` records taken
/// back, the latest first. An entry `(a, w)` records that LC-3 address `a`
/// held `w` before it was written.
pub open spec fn undone(journal: Seq<(u16, u16)>, cells: Map<u32, u32>) -> Map<u32, u32>
    decreases journal.len(),
{
    if journal.len() == 0 {
        cells
    } else {
        undone(
            journal.drop_last(),
            primary_written(cells, journal.last().0 as int, journal.last().1),
        )
    }
}

/// Writing back the half-word that a flash word held undoes any write of
/// that half.
proof fn lemma_merge_back(c: u32, a: int, w: u16)
    ensures
        merged(c, a, word_half(c, a)) == c,
        merged(merged(c, a, w), a, word_half(c, a)) == c,
{
    let lo: u16 = (c & 0xFFFFu32) as u16;
    let hi: u16 = (c >> 16u32) as u16;
    assert(((c & 0xFFFF0000u32) + lo as u32) as u32 == c) by (bit_vector)
        requires
            lo == (c & 0xFFFFu32) as u16,
    ;
    assert(((((c & 0xFFFF0000u32) + w as u32) as u32 & 0xFFFF0000u32) + lo as u32) as u32 == c)
        by (bit_vector)
        requires
            lo == (c & 0xFFFFu32) as u16,
    ;
    assert(((c & 0x0000FFFFu32) + (((hi as u32) << 16u32) & 0xFFFF0000u32)) as u32 == c)
        by (bit_vector)
        requires
            hi == (c >> 16u32) as u16,
    ;
    assert((((((c & 0x0000FFFFu32) + (((w as u32) << 16u32) & 0xFFFF0000u32)) as u32)
        & 0x0000FFFFu32) + (((hi as u32) << 16u32) & 0xFFFF0000u32)) as u32 == c) by (bit_vector)
        requires
            hi == (c >> 16u32) as u16,
    ;
}

/// LC-3 memory backed by the primary partition of `tm4c_mem_obj`.
/// `journal` records, for each write since the last reset, the word it
/// replaced; `persisted` is the flash that a reset returns to.
pub struct tm4c_lc3_memory<F: Flash> {
    pub tm4c_mem_obj: Tm4c_flash_page_unit_for_lc3<F>,
    pub journal: Vec<(u16, u16)>,
    pub persisted: Ghost<Map<u32, u32>>,
}

impl<F: Flash> tm4c_lc3_memory<F> {
    /// The flash words of the device.
    pub open spec fn cells(&self) -> Map<u32, u32> {
        self.tm4c_mem_obj.flash().cells()
    }

    /// Every operation asked of the flash device so far succeeded.
    pub open spec fn healthy(&self) -> bool {
        self.tm4c_mem_obj.flash().healthy()
    }

    /// While the device is healthy, taking back the journal's writes gives
    /// the persisted flash.
    pub open spec fn wf(&self) -> bool {
        self.healthy() ==> undone(self.journal@, self.cells()) == self.persisted@
    }

    /// LC-3 memory over `tm4c_mem_obj`; a reset returns to the flash as it
    /// is now.
    pub fn new(tm4c_mem_obj: Tm4c_flash_page_unit_for_lc3<F>) -> (r: Self)
        ensures
            r.tm4c_mem_obj == tm4c_mem_obj,
            r.journal@.len() == 0,
            r.persisted@ == r.cells(),
            r.wf(),
    {
        tm4c_lc3_memory {
            tm4c_mem_obj,
            journal: Vec::new(),
            persisted: Ghost(tm4c_mem_obj.flash().cells()),
        }
    }

    /// The word at LC-3 address `addr`, or `0xFFFF` when the flash could not
    /// be read.
    pub fn read_word(&mut self, addr: Addr) -> (w: Word)
        ensures
            final(self).cells() == old(self).cells(),
            final(self).journal == old(self).journal,
            final(self).persisted == old(self).persisted,
            final(self).healthy() ==> old(self).healthy(),
            final(self).tm4c_mem_obj.swap_table() == old(self).tm4c_mem_obj.swap_table(),
            final(self).tm4c_mem_obj.wf() == old(self).tm4c_mem_obj.wf(),
            final(self).healthy() ==> old(self).cells().contains_key(
                primary_address(addr as int) as u32,
            ) && w == word_half(old(self).cells()[primary_address(addr as int) as u32], addr as int),
            (old(self).cells().contains_key(primary_address(addr as int) as u32) && w == word_half(
                old(self).cells()[primary_address(addr as int) as u32],
                addr as int,
            )) || w == UNREADABLE_WORD,
    {
        let out = self.tm4c_mem_obj.read_primary(addr);
        let mut out_word: Word = 0xFFFF;
        match out {
            Ok(word) => {
                out_word = word;
            },
            Err(_) => {},
        }
        out_word
    }

    /// Writes `word` at LC-3 address `addr`; when the flash refuses the read
    /// or the write, the memory stays as it was. The change lasts until the
    /// next reset.
    pub fn write_word(&mut self, addr: Addr, word: Word)
        requires
            old(self).wf(),
        ensures
            final(self).wf(),
            final(self).tm4c_mem_obj.swap_table() == old(self).tm4c_mem_obj.swap_table(),
            final(self).tm4c_mem_obj.wf() == old(self).tm4c_mem_obj.wf(),
            final(self).cells() == old(self).cells() || ({
                let p = primary_address(addr as int) as u32;
                &&& old(self).cells().contains_key(p)
                &&& final(self).cells() == old(self).cells().insert(
                    p,
                    merged(old(self).cells()[p], addr as int, word),
                )
            }),
            final(self).persisted == old(self).persisted,
            final(self).healthy() ==> old(self).healthy() && ({
                let p = primary_address(addr as int) as u32;
                &&& old(self).cells().contains_key(p)
                &&& final(self).cells() == old(self).cells().insert(
                    p,
                    merged(old(self).cells()[p], addr as int, word),
                )
            }),
    {
        let prev = self.tm4c_mem_obj.read_primary(addr);
        let out = self.tm4c_mem_obj.write_primary(addr, word);
        proof {
            let p = primary_address(addr as int) as u32;
            if out is Ok && self.cells() != old(self).cells() {
                assert(self.cells() =~= old(self).cells().insert(
                    p,
                    merged(old(self).cells()[p], addr as int, word),
                ));
            }
        }
        match prev {
            Ok(w) => {
                self.journal.push((addr, w));
                proof {
                    let p = primary_address(addr as int) as u32;
                    let c = old(self).cells()[p];
                    let j = self.journal@;
                    lemma_merge_back(c, addr as int, word);
                    assert(j.drop_last() =~= old(self).journal@);
                    if self.cells() == old(self).cells() {
                        assert(old(self).cells().insert(p, c) =~= old(self).cells());
                    } else {
                        assert(self.cells().insert(p, c) =~= old(self).cells());
                    }
                }
            },
            Err(_) => {},
        }
        match out {
            Ok(()) => {},
            Err(_) => {},
        }
    }

    /// Takes back every write since the last reset, the latest first, so
    /// that the flash holds again what it held then.
    pub fn reset(&mut self)
        requires
            old(self).wf(),
        ensures
            final(self).wf(),
            final(self).healthy() ==> old(self).healthy() && final(self).cells() == old(
                self,
            ).persisted@,
            final(self).journal@.len() == 0,
            final(self).persisted == old(self).persisted,
            final(self).tm4c_mem_obj.swap_table() == old(self).tm4c_mem_obj.swap_table(),
            final(self).tm4c_mem_obj.wf() == old(self).tm4c_mem_obj.wf(),
    {
        let mut j: usize = self.journal.len();
        proof {
            assert(self.journal@.subrange(0, j as int) =~= self.journal@);
        }
        while j > 0
            invariant
                j <= self.journal@.len(),
                self.healthy() ==> old(self).healthy() && undone(
                    self.journal@.subrange(0, j as int),
                    self.cells(),
                ) == self.persisted@,
                self.journal == old(self).journal,
                self.persisted == old(self).persisted,
                self.tm4c_mem_obj.swap_table() == old(self).tm4c_mem_obj.swap_table(),
                self.tm4c_mem_obj.wf() == old(self).tm4c_mem_obj.wf(),
            decreases j,
        {
            let e: (u16, u16) = self.journal[j - 1];
            let ghost before = self.cells();
            let out = self.tm4c_mem_obj.write_primary(e.0, e.1);
            proof {
                let sub = self.journal@.subrange(0, j as int);
                assert(sub.drop_last() =~= self.journal@.subrange(0, j - 1));
                assert(sub.last() == e);
                let p = primary_address(e.0 as int) as u32;
                if out is Ok && self.cells() != before {
                    assert(self.cells() =~= before.insert(p, merged(before[p], e.0 as int, e.1)));
                }
            }
            j = j - 1;
        }
        self.journal = Vec::new();
        proof {
            assert(self.journal@ =~= Seq::<(u16, u16)>::empty());
        }
    }
}

} // verus!
