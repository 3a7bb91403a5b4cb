//! A small write-back cache of flash pages held in RAM.
//!
//! `RAM_Pages` keeps up to two pages of a flash storage region in RAM. Reads
//! and writes go to the cached copy; a page is loaded on first use, and when
//! both slots are taken the first one is evicted, and written back to flash
//! if it was modified.
use vstd::prelude::*;
use core::marker::PhantomData;
use crate::flash::{
    law_erase_then_program, page_first_word, page_in_range, page_of, page_words, same_outside,
    Read, WriteErase, PAGE_WORDS,
};

verus! {

const WORD_SIZE: usize = 4;

const RAM_PAGE_WORDS: usize = 256;

const RAM_PAGE_SIZE: usize = WORD_SIZE * RAM_PAGE_WORDS;

const NUM_RAM_PAGES: usize = 2;

/// Largest storage region, in words, whose byte addresses fit in a `u32`.
pub const MAX_STORAGE_WORDS: usize = 0x4000_0000;

/// `new` agrees with `old` except, possibly, on the words of page `spill`.
pub open spec fn kept_outside(old: Seq<u32>, new: Seq<u32>, spill: Option<int>) -> bool {
    &&& new.len() == old.len()
    &&& forall|k: int|
        0 <= k < old.len() && spill != Some(k / (PAGE_WORDS as int)) ==> #[trigger] new[k]
            == old[k]
}

/// `new` agrees with `old` except, possibly, on word `target` and on the words
/// of page `spill`.
pub open spec fn kept_outside_word(
    old: Seq<u32>,
    new: Seq<u32>,
    spill: Option<int>,
    target: int,
) -> bool {
    &&& new.len() == old.len()
    &&& forall|k: int|
        0 <= k < old.len() && k != target && spill != Some(k / (PAGE_WORDS as int))
            ==> #[trigger] new[k] == old[k]
}

/// `new` agrees with `old` except, possibly, on page `page` and on page `spill`.
pub open spec fn kept_outside_page(
    old: Seq<u32>,
    new: Seq<u32>,
    spill: Option<int>,
    page: int,
) -> bool {
    &&& new.len() == old.len()
    &&& forall|k: int|
        0 <= k < old.len() && k / (PAGE_WORDS as int) != page && spill != Some(
            k / (PAGE_WORDS as int),
        ) ==> #[trigger] new[k] == old[k]
}

/// Word storage that keeps a working copy of its pages in RAM.
pub trait RAM_backed_flash {
    /// The words as reads see them; word `k` sits at byte address `4 * k`.
    spec fn memory(&self) -> Seq<u32>;

    /// The internal invariant of the store.
    spec fn ready(&self) -> bool;

    /// Whether byte address `address` may be read and written.
    spec fn addressable(&self, address: int) -> bool;

    /// The page whose RAM copy is written back to storage when `address` is
    /// accessed next, if any. That page then reads whatever the storage holds.
    spec fn spill(&self, address: int) -> Option<int>;

    /// Every write-back so far succeeded. While it holds, the store behaves
    /// as a flat word memory: a write-back changes nothing that reads see.
    spec fn faithful(&self) -> bool;

    proof fn lemma_addressable(&self, address: int)
        requires
            self.ready(),
            self.addressable(address),
        ensures
            0 <= address < 0x1_0000_0000,
            address / 4 < self.memory().len(),
            self.spill(address) != Some(page_of(address)),
    ;

    fn read_page(&mut self, address: usize) -> (page: [u32; 256])
        requires
            old(self).ready(),
            old(self).addressable(address as int),
        ensures
            final(self).ready(),
            final(self).spill(address as int) is None,
            forall|a: int| #[trigger] final(self).addressable(a) == old(self).addressable(a),
            page@ == page_words(old(self).memory(), page_of(address as int)),
            kept_outside(old(self).memory(), final(self).memory(), old(self).spill(address as int)),
            final(self).faithful() ==> old(self).faithful() && final(self).memory() == old(
                self).memory(),
            final(self).faithful() ==> accessed(
                old(self).memory(),
                StoreAccess::Read,
                final(self).memory(),
            ),
            old(self).spill(address as int) is None ==> final(self).faithful() == old(self).faithful(),
    ;

    fn write_page(&mut self, address: usize, data: [u32; 256])
        requires
            old(self).ready(),
            old(self).addressable(address as int),
        ensures
            final(self).ready(),
            final(self).spill(address as int) is None,
            forall|a: int| #[trigger] final(self).addressable(a) == old(self).addressable(a),
            page_words(final(self).memory(), page_of(address as int)) == data@,
            kept_outside_page(
                old(self).memory(),
                final(self).memory(),
                old(self).spill(address as int),
                page_of(address as int),
            ),
            final(self).faithful() ==> old(self).faithful() && kept_outside_page(
                old(self).memory(),
                final(self).memory(),
                None,
                page_of(address as int),
            ),
            final(self).faithful() ==> accessed(
                old(self).memory(),
                StoreAccess::WritePage(page_of(address as int), data@),
                final(self).memory(),
            ),
            old(self).spill(address as int) is None ==> final(self).faithful() == old(self).faithful(),
    ;

    fn read_word(&mut self, address: usize) -> (word: u32)
        requires
            old(self).ready(),
            old(self).addressable(address as int),
        ensures
            final(self).ready(),
            final(self).spill(address as int) is None,
            forall|a: int| #[trigger] final(self).addressable(a) == old(self).addressable(a),
            word == old(self).memory()[address as int / 4],
            kept_outside(old(self).memory(), final(self).memory(), old(self).spill(address as int)),
            final(self).faithful() ==> old(self).faithful() && final(self).memory() == old(
                self).memory(),
            final(self).faithful() ==> accessed(
                old(self).memory(),
                StoreAccess::Read,
                final(self).memory(),
            ),
            old(self).spill(address as int) is None ==> final(self).faithful() == old(self).faithful(),
    ;

    fn write_word(&mut self, address: usize, data: u32)
        requires
            old(self).ready(),
            old(self).addressable(address as int),
        ensures
            final(self).ready(),
            final(self).spill(address as int) is None,
            forall|a: int| #[trigger] final(self).addressable(a) == old(self).addressable(a),
            final(self).memory()[address as int / 4] == data,
            kept_outside_word(
                old(self).memory(),
                final(self).memory(),
                old(self).spill(address as int),
                address as int / 4,
            ),
            final(self).faithful() ==> old(self).faithful() && final(self).memory() == old(
                self).memory().update(address as int / 4, data),
            final(self).faithful() ==> accessed(
                old(self).memory(),
                StoreAccess::WriteWord(address as int / 4, data),
                final(self).memory(),
            ),
            old(self).spill(address as int) is None ==> final(self).faithful() == old(self).faithful(),
    ;

    fn commit_page(&mut self)
        requires
            old(self).ready(),
        ensures
            final(self).ready(),
            forall|a: int| #[trigger] final(self).addressable(a) == old(self).addressable(a),
            final(self).memory() == old(self).memory(),
            final(self).faithful() == old(self).faithful(),
    ;
}

/// Two RAM slots caching pages of the storage region of `flash_controller`.
/// Slot `i` holds page `indices[i]` when `valid[i]`; `dirty[i]` records that
/// the RAM copy was modified since it was loaded.
pub struct RAM_Pages<T: Read + WriteErase, DAT> {
    pub addr: u32,
    pub data: [[u32; RAM_PAGE_WORDS]; NUM_RAM_PAGES],
    pub valid: [bool; NUM_RAM_PAGES],
    pub dirty: [bool; NUM_RAM_PAGES],
    pub indices: [u32; NUM_RAM_PAGES],
    pub flash_controller: T,
    pub phantom: PhantomData<DAT>,
}

proof fn lemma_page_tag(a: u32)
    ensures
        (a & !0x3FFu32) as int == (a as int / 1024) * 1024,
        ((a & !0x3FFu32) >> 10u32) as int == a as int / 1024,
{
    assert((a & !0x3FFu32) == (a / 1024) * 1024) by (bit_vector);
    assert(((a & !0x3FFu32) >> 10u32) == a / 1024) by (bit_vector);
}

proof fn lemma_word_in_page(a: usize)
    ensures
        ((a & 0x3FC) >> 2) as int == (a as int / 4) % 256,
        ((a & 0x3FC) >> 2) < 256,
{
    assert(((a & 0x3FC) >> 2) == (a / 4) % 256) by (bit_vector);
}

impl<T: Read + WriteErase, DAT> RAM_Pages<T, DAT> {
    /// Every erase and program that the flash controller was asked for so
    /// far succeeded.
    pub open spec fn write_backs_ok(&self) -> bool {
        self.flash_controller.healthy()
    }

    /// The storage region of the flash controller.
    pub open spec fn storage(&self) -> Seq<u32> {
        self.flash_controller.storage_words()
    }

    /// Slot `slot` holds page `page`.
    pub open spec fn holds(&self, slot: int, page: int) -> bool {
        self.valid@[slot] && self.indices@[slot] == page
    }

    /// Word `k` as reads see it: from the slot that holds its page, or from
    /// the storage region.
    pub open spec fn word_at(&self, k: int) -> u32 {
        if self.holds(0, k / 256) {
            self.data@[0]@[k % 256]
        } else if self.holds(1, k / 256) {
            self.data@[1]@[k % 256]
        } else {
            self.storage()[k]
        }
    }

    /// The words as reads see them.
    pub open spec fn memory_words(&self) -> Seq<u32> {
        Seq::new(self.storage().len(), |k: int| self.word_at(k))
    }

    /// The page that holds byte address `address` is in a slot.
    pub open spec fn present(&self, address: int) -> bool {
        self.holds(0, page_of(address)) || self.holds(1, page_of(address))
    }

    /// Both slots hold a page.
    pub open spec fn full(&self) -> bool {
        self.valid@[0] && self.valid@[1]
    }

    /// The slot a page is loaded into next: the first free slot, or the
    /// first slot when none is free.
    pub open spec fn load_slot(&self) -> int {
        if self.valid@[0] && !self.valid@[1] {
            1
        } else {
            0
        }
    }

    /// The slot that eviction empties: the first one that holds a page.
    pub open spec fn victim(&self) -> int {
        if self.valid@[0] {
            0
        } else if self.valid@[1] {
            1
        } else {
            0
        }
    }

    /// The page written back to storage when `address` is accessed next.
    pub open spec fn spill_page(&self, address: int) -> Option<int> {
        if !self.present(address) && self.full() && self.dirty@[self.victim()] {
            Some(self.indices@[self.victim()] as int)
        } else {
            None
        }
    }

    /// Byte address `address` lies in a page of the storage region.
    pub open spec fn in_storage(&self, address: int) -> bool {
        0 <= address && page_in_range(self.storage(), page_of(address))
    }

    /// Every slot's page index, in bytes, fits in a `u32`.
    pub open spec fn tags_bounded(&self) -> bool {
        forall|i: int| 0 <= i < 2 ==> #[trigger] self.indices@[i] < 0x40_0000
    }

    pub open spec fn wf(&self) -> bool {
        &&& self.storage().len() <= MAX_STORAGE_WORDS
        &&& self.tags_bounded()
        &&& forall|i: int|
            0 <= i < 2 && #[trigger] self.valid@[i] ==> page_in_range(
                self.storage(),
                self.indices@[i] as int,
            )
        &&& !(self.valid@[0] && self.valid@[1] && self.indices@[0] == self.indices@[1])
        &&& forall|i: int|
            0 <= i < 2 && #[trigger] self.valid@[i] && !self.dirty@[i] ==> self.data@[i]@
                == page_words(self.storage(), self.indices@[i] as int)
    }

    /// An empty cache in front of `flash_controller`.
    pub fn new(flash_controller_init: T) -> (r: RAM_Pages<T, DAT>)
        requires
            flash_controller_init.storage_words().len() <= MAX_STORAGE_WORDS,
        ensures
            r.wf(),
            r.flash_controller == flash_controller_init,
            r.valid@ == seq![false, false],
            r.dirty@ == seq![false, false],
            r.indices@ == seq![0u32, 0u32],
            r.addr == 0,
            r.memory_words() == flash_controller_init.storage_words(),
            r.write_backs_ok() == flash_controller_init.healthy(),
    {
        let r = RAM_Pages {
            addr: 0,
            data: [[0; RAM_PAGE_WORDS]; NUM_RAM_PAGES],
            valid: [false; NUM_RAM_PAGES],
            dirty: [false; NUM_RAM_PAGES],
            indices: [0; NUM_RAM_PAGES],
            flash_controller: flash_controller_init,
            phantom: PhantomData,
        };
        assert(r.valid@ =~= seq![false, false]);
        assert(r.dirty@ =~= seq![false, false]);
        assert(r.indices@ =~= seq![0u32, 0u32]);
        assert(r.memory_words() =~= flash_controller_init.storage_words());
        r
    }

    /// Whether the page of `address` is in a slot, and which.
    fn page_present_on_RAM(&mut self, address: usize) -> (r: (bool, usize))
        requires
            old(self).tags_bounded(),
            address < 0x1_0000_0000,
        ensures
            *final(self) == *old(self),
            r.0 == old(self).present(address as int),
            r.1 < 2,
            r.0 ==> old(self).holds(r.1 as int, page_of(address as int)),
            !r.0 ==> r.1 == 0,
    {
        let mut page_present: bool = false;
        let mut data_buffer_index: usize = 0;
        let tag: u32 = (address as u32) & !0x3FFu32;
        proof {
            lemma_page_tag(address as u32);
        }
        let ghost page = page_of(address as int);
        let mut i: usize = 0;
        while i < NUM_RAM_PAGES
            invariant
                self.tags_bounded(),
                i <= 2,
                tag as int == page * 1024,
                page_present <==> exists|j: int| 0 <= j < i && #[trigger] self.holds(j, page),
                page_present ==> self.holds(data_buffer_index as int, page)
                    && data_buffer_index < i,
                data_buffer_index < 2,
                !page_present ==> data_buffer_index == 0,
            decreases 2 - i,
        {
            assert(self.indices@[i as int] < 0x40_0000);
            assert(RAM_PAGE_SIZE as u32 == 1024);
            if self.indices[i] * (RAM_PAGE_SIZE as u32) == tag && self.valid[i] {
                page_present = true;
                data_buffer_index = i;
            }
            assert(self.holds(i as int, page) ==> page_present);
            assert(page_present ==> self.holds(data_buffer_index as int, page));
            i = i + 1;
            assert(page_present ==> exists|j: int| 0 <= j < i && #[trigger] self.holds(j, page));
            assert((exists|j: int| 0 <= j < i && #[trigger] self.holds(j, page)) ==> page_present);
        }
        (page_present, data_buffer_index)
    }

    /// Whether a slot is free, and the first free one.
    fn free_page_available(&mut self) -> (r: (bool, usize))
        requires
            old(self).wf(),
        ensures
            *final(self) == *old(self),
            r.0 == !old(self).full(),
            r.0 ==> r.1 == old(self).load_slot(),
            !r.0 ==> r.1 == 0,
    {
        let mut free_page_present: bool = false;
        let mut free_page_index: usize = 0;
        let mut i: usize = 0;
        while i < NUM_RAM_PAGES
            invariant
                i <= 2,
                self.wf(),
                free_page_present <==> exists|j: int| 0 <= j < i && !#[trigger] self.valid@[j],
                free_page_present ==> !self.valid@[free_page_index as int] && free_page_index
                    < i,
                free_page_present ==> forall|j: int|
                    0 <= j < free_page_index ==> #[trigger] self.valid@[j],
                !free_page_present ==> free_page_index == 0,
            decreases 2 - i,
        {
            if !self.valid[i] && !free_page_present {
                free_page_present = true;
                free_page_index = i;
            }
            i = i + 1;
        }
        (free_page_present, free_page_index)
    }

    /// Empties the first slot that holds a page, writing the page back to
    /// flash first when it was modified, and returns that slot.
    #[verifier::rlimit(40)]
    #[verifier::spinoff_prover]
    fn evict_page_to_flash(&mut self) -> (r: usize)
        requires
            old(self).wf(),
        ensures
            r as int == old(self).victim(),
            final(self).valid@ == old(self).valid@.update(r as int, false),
            final(self).dirty@ == old(self).dirty@,
            final(self).indices@ == old(self).indices@,
            final(self).data@ == old(self).data@,
            final(self).addr == old(self).addr,
            old(self).valid@[r as int] && old(self).dirty@[r as int] ==> same_outside(
                old(self).storage(),
                final(self).storage(),
                page_first_word(old(self).indices@[r as int] as int),
                page_first_word(old(self).indices@[r as int] as int) + 256,
            ),
            !(old(self).valid@[r as int] && old(self).dirty@[r as int]) ==> final(self).flash_controller
                == old(self).flash_controller,
            old(self).valid@[r as int] && old(self).dirty@[r as int] && final(self).write_backs_ok()
                ==> old(self).write_backs_ok() && page_words(
                final(self).storage(),
                old(self).indices@[r as int] as int,
            ) == old(self).data@[r as int]@,
    {
        let mut evicted_page_index: usize = 0;
        let mut valid_page_present: bool = false;
        let mut i: usize = 0;
        while i < NUM_RAM_PAGES
            invariant_except_break
                i <= 2,
                !valid_page_present,
                evicted_page_index == 0,
                forall|j: int| 0 <= j < i ==> !#[trigger] self.valid@[j],
            ensures
                valid_page_present ==> evicted_page_index as int == self.victim() && self.valid@[
                    evicted_page_index as int
                ],
                !valid_page_present ==> evicted_page_index == 0 && !self.valid@[0]
                    && !self.valid@[1],
            decreases 2 - i,
        {
            if self.valid[i] {
                evicted_page_index = i;
                valid_page_present = true;
                break;
            }
            i = i + 1;
        }
        if valid_page_present && self.dirty[evicted_page_index] {
            let page_addr: usize = (self.indices[evicted_page_index] as usize) * RAM_PAGE_SIZE;
            let erase_result = self.flash_controller.erase_page(page_addr);
            let ghost erased_storage = self.storage();
            let program_result = self.flash_controller.program_page(
                page_addr,
                &self.data[evicted_page_index],
            );
            proof {
                let q = self.indices@[evicted_page_index as int] as int;
                if self.write_backs_ok() {
                    assert(page_addr as int / 4 == page_first_word(q));
                    assert(page_of(page_addr as int) == q);
                    law_erase_then_program(
                        old(self).storage(),
                        q,
                        old(self).data@[evicted_page_index as int]@,
                    );
                }
            }
            proof {
                let q = self.indices@[evicted_page_index as int] as int;
                assert forall|k: int|
                    0 <= k < old(self).storage().len() && !(page_first_word(q) <= k
                        < page_first_word(q) + 256) implies #[trigger] self.storage()[k] == old(self).storage()[k] by {
                    assert(erased_storage[k] == old(self).storage()[k]);
                }
            }
        }
        self.valid[evicted_page_index] = false;
        evicted_page_index
    }

    /// Loads the page of `address` from flash into a slot, evicting a page
    /// when none is free, and returns its words.
    fn load_page(&mut self, address: usize) -> (r: [u32; 256])
        requires
            old(self).wf(),
            old(self).in_storage(address as int),
            !old(self).present(address as int),
        ensures
            final(self).wf(),
            final(self).storage().len() == old(self).storage().len(),
            final(self).addr == old(self).addr,
            final(self).holds(old(self).load_slot(), page_of(address as int)),
            !final(self).dirty@[old(self).load_slot()],
            r@ == final(self).data@[old(self).load_slot()]@,
            r@ == page_words(old(self).storage(), page_of(address as int)),
            final(self).valid@[1 - old(self).load_slot()] == old(self).valid@[1
                - old(self).load_slot()],
            final(self).dirty@[1 - old(self).load_slot()] == old(self).dirty@[1
                - old(self).load_slot()],
            final(self).indices@[1 - old(self).load_slot()] == old(self).indices@[1
                - old(self).load_slot()],
            final(self).data@[1 - old(self).load_slot()] == old(self).data@[1
                - old(self).load_slot()],
            old(self).spill_page(address as int) is None ==> final(self).storage()
                == old(self).storage(),
            kept_outside(
                old(self).memory_words(),
                final(self).memory_words(),
                old(self).spill_page(address as int),
            ),
            forall|k: int|
                0 <= k < final(self).storage().len() && old(self).spill_page(address as int)
                    == Some(k / 256) ==> #[trigger] final(self).memory_words()[k] == final(self).storage()[k],
            final(self).write_backs_ok() ==> old(self).write_backs_ok(),
            old(self).spill_page(address as int) is None ==> final(self).write_backs_ok()
                == old(self).write_backs_ok(),
            final(self).write_backs_ok() ==> final(self).memory_words() == old(self).memory_words(),
    {
        let ghost page = page_of(address as int);
        let ghost s = old(self).load_slot();
        let mut load_page_idx: usize = 0;
        let free_page: (bool, usize) = self.free_page_available();
        if !free_page.0 {
            load_page_idx = self.evict_page_to_flash();
        } else {
            load_page_idx = free_page.1;
        }
        assert(load_page_idx as int == s);
        let ghost mid = *self;
        assert(page_of(address as int) != mid.indices@[s] as int || !old(self).valid@[s]);
        let loaded: [u32; 256] = self.flash_controller.read_page(address);
        self.data[load_page_idx] = loaded;
        proof {
            lemma_page_tag(address as u32);
        }
        self.indices[load_page_idx] = ((address as u32) & !0x3FFu32) >> 10u32;
        self.dirty[load_page_idx] = false;
        self.valid[load_page_idx] = true;
        proof {
            let q = old(self).indices@[s] as int;
            let evicted_dirty = !free_page.0 && old(self).dirty@[s];
            // The page being loaded is not the one written back.
            assert(self.storage() == mid.storage());
            assert(!free_page.0 ==> q != page);
            if evicted_dirty {
                assert forall|k: int|
                    0 <= k < self.storage().len() && k / 256 != q implies #[trigger] self.storage()[k]
                    == old(self).storage()[k] by {
                    assert(!(page_first_word(q) <= k < page_first_word(q) + 256));
                }
            }
            assert(page_words(self.storage(), page) =~= page_words(old(self).storage(), page));
            assert(self.indices@[s] as int == page);
            // The other slot keeps a page other than the one written back.
            let o = 1 - s;
            if self.valid@[o] && !self.dirty@[o] && evicted_dirty {
                let r_o = self.indices@[o] as int;
                assert(r_o != q);
                assert(page_words(self.storage(), r_o) =~= page_words(old(self).storage(), r_o));
            }
            assert(self.valid@[o] && !self.dirty@[o] ==> self.data@[o]@ == page_words(
                self.storage(),
                self.indices@[o] as int,
            ));
            // The words as seen by reads.
            assert forall|k: int|
                0 <= k < old(self).storage().len() && old(self).spill_page(address as int) != Some(
                    k / 256,
                ) implies #[trigger] self.memory_words()[k] == old(self).memory_words()[k] by {
                let kp = k / 256;
                if kp == page {
                    assert(self.memory_words()[k] == self.data@[s]@[k % 256]);
                } else if old(self).holds(s, kp) {
                    assert(!free_page.0);
                    assert(!old(self).dirty@[s]);
                    assert(old(self).data@[s]@[k % 256] == page_words(old(self).storage(), kp)[k
                        % 256]);
                } else {
                }
            }
            assert forall|k: int|
                0 <= k < self.storage().len() && old(self).spill_page(address as int) == Some(
                    k / 256,
                ) implies #[trigger] self.memory_words()[k] == self.storage()[k] by {
                assert(!self.holds(s, k / 256));
            }
            if self.write_backs_ok() {
                law_write_back_keeps_memory(*old(self), *self, address as int);
            }
        }
        self.data[load_page_idx]
    }
}

} // verus!

verus! {

impl<T: Read + WriteErase, DAT> RAM_backed_flash for RAM_Pages<T, DAT> {
    open spec fn memory(&self) -> Seq<u32> {
        self.memory_words()
    }

    open spec fn ready(&self) -> bool {
        self.wf()
    }

    open spec fn addressable(&self, address: int) -> bool {
        self.in_storage(address)
    }

    open spec fn spill(&self, address: int) -> Option<int> {
        self.spill_page(address)
    }

    open spec fn faithful(&self) -> bool {
        self.write_backs_ok()
    }

    proof fn lemma_addressable(&self, address: int) {
    }

    /// Returns the words of the page of `address`, loading the page first
    /// when it is not in a slot.
    fn read_page(&mut self, address: usize) -> (page: [u32; 256])
        ensures
            old(self).spill_page(address as int) is None ==> final(self).storage() == old(
                self).storage(),
            forall|k: int|
                0 <= k < final(self).storage().len() && old(self).spill_page(address as int)
                    == Some(k / 256) ==> #[trigger] final(self).memory_words()[k] == final(
                self).storage()[k],
    {
        let mut page_data: [u32; 256] = [0; 256];
        let page_availibility: (bool, usize) = self.page_present_on_RAM(address);
        if page_availibility.0 {
            page_data = self.data[page_availibility.1];
            proof {
                assert(page_data@ =~= page_words(self.memory_words(), page_of(address as int)));
            }
        } else {
            page_data = self.load_page(address);
            proof {
                assert(page_data@ =~= page_words(old(self).memory_words(), page_of(address as int)));
            }
        }
        page_data
    }

    /// Replaces the words of the page of `address` with `data`, loading the
    /// page first when it is not in a slot.
    fn write_page(&mut self, address: usize, data: [u32; 256])
        ensures
            old(self).spill_page(address as int) is None ==> final(self).storage() == old(
                self).storage(),
            forall|k: int|
                0 <= k < final(self).storage().len() && old(self).spill_page(address as int)
                    == Some(k / 256) ==> #[trigger] final(self).memory_words()[k] == final(
                self).storage()[k],
    {
        let ghost loaded;
        let mut page_availibility: (bool, usize) = self.page_present_on_RAM(address);
        if page_availibility.0 {
            proof {
                loaded = *self;
            }
            self.data[page_availibility.1] = data;
        } else {
            self.load_page(address);
            page_availibility = self.page_present_on_RAM(address);
            proof {
                loaded = *self;
            }
            self.data[page_availibility.1] = data;
        }
        let ghost pre = *self;
        self.dirty[page_availibility.1] = true;
        proof {
            let page = page_of(address as int);
            assert(page_words(self.memory_words(), page) =~= data@);
            assert forall|k: int|
                0 <= k < old(self).storage().len() && k / 256 != page && old(self).spill_page(
                    address as int,
                ) != Some(k / 256) implies #[trigger] self.memory_words()[k] == old(
                self).memory_words()[k] by {
                assert(self.memory_words()[k] == pre.memory_words()[k]);
                assert(pre.memory_words()[k] == loaded.memory_words()[k]);
            }
        }
    }

    /// Returns the word at byte address `address`.
    fn read_word(&mut self, address: usize) -> (word: u32)
        ensures
            old(self).spill_page(address as int) is None ==> final(self).storage() == old(
                self).storage(),
            forall|k: int|
                0 <= k < final(self).storage().len() && old(self).spill_page(address as int)
                    == Some(k / 256) ==> #[trigger] final(self).memory_words()[k] == final(
                self).storage()[k],
    {
        let mut page_word: u32 = 0;
        proof {
            lemma_word_in_page(address);
        }
        let offset: usize = (address & 0x3FC) >> 2;
        if self.page_present_on_RAM(address).0 {
            let slot: usize = self.page_present_on_RAM(address).1;
            page_word = self.data[slot][offset];
        } else {
            let page: [u32; 256] = self.load_page(address);
            page_word = page[offset];
        }
        page_word
    }

    /// Stores `data` at byte address `address`.
    fn write_word(&mut self, address: usize, data: u32)
        ensures
            old(self).spill_page(address as int) is None ==> final(self).storage() == old(
                self).storage(),
            forall|k: int|
                0 <= k < final(self).storage().len() && old(self).spill_page(address as int)
                    == Some(k / 256) ==> #[trigger] final(self).memory_words()[k] == final(
                self).storage()[k],
    {
        proof {
            lemma_word_in_page(address);
        }
        let offset: usize = (address & 0x3FC) >> 2;
        let ghost loaded;
        if self.page_present_on_RAM(address).0 {
            proof {
                loaded = *self;
            }
            let slot: usize = self.page_present_on_RAM(address).1;
            self.data[slot][offset] = data;
        } else {
            self.load_page(address);
            proof {
                loaded = *self;
            }
            let slot: usize = self.page_present_on_RAM(address).1;
            self.data[slot][offset] = data;
        }
        let slot: usize = self.page_present_on_RAM(address).1;
        self.dirty[slot] = true;
        proof {
            let page = page_of(address as int);
            let t = address as int / 4;
            assert(t / 256 == page);
            assert(0 <= t < old(self).memory_words().len());
            assert(self.memory_words()[t] == data);
            assert forall|k: int|
                0 <= k < old(self).storage().len() && k != t && old(self).spill_page(
                    address as int,
                ) != Some(k / 256) implies #[trigger] self.memory_words()[k] == old(
                self).memory_words()[k] by {
                assert(self.memory_words()[k] == loaded.memory_words()[k]);
            }
            if self.write_backs_ok() {
                assert(self.memory_words() =~= old(self).memory_words().update(t, data));
            }
        }
    }

    /// Leaves the pages in RAM; they reach flash when evicted.
    fn commit_page(&mut self) {
    }
}

} // verus!

verus! {

/// An access to a page that is not in RAM changes what reads see at most on
/// the page it writes back, and not even there once the storage holds the
/// words written back.
pub proof fn law_write_back_keeps_memory<T: Read + WriteErase, DAT>(
    before: RAM_Pages<T, DAT>,
    after: RAM_Pages<T, DAT>,
    address: int,
)
    requires
        before.wf(),
        kept_outside(before.memory_words(), after.memory_words(), before.spill_page(address)),
        forall|k: int|
            0 <= k < after.storage().len() && before.spill_page(address) == Some(k / 256)
                ==> #[trigger] after.memory_words()[k] == after.storage()[k],
        match before.spill_page(address) {
            Some(q) => page_words(after.storage(), q) == before.data@[before.victim()]@,
            None => true,
        },
    ensures
        after.memory_words() == before.memory_words(),
{
    assert forall|k: int| 0 <= k < before.memory_words().len() implies #[trigger] after.memory_words()[k]
        == before.memory_words()[k] by {
        if let Some(q) = before.spill_page(address) {
            if k / 256 == q {
                let v = before.victim();
                assert(before.holds(v, q));
                assert(after.storage()[k] == page_words(after.storage(), q)[k % 256]);
            }
        }
    }
    assert(after.memory_words() =~= before.memory_words());
}

/// An access to a word store: a read of a word or a page, a write of word
/// `k`, or a write of page `p`.
pub enum StoreAccess {
    Read,
    WriteWord(int, u32),
    WritePage(int, Seq<u32>),
}

/// `after` is what reads see once `access` has been made, when reads saw
/// `before`, as the contracts of `RAM_backed_flash` give it while the store
/// is faithful.
pub open spec fn accessed(before: Seq<u32>, access: StoreAccess, after: Seq<u32>) -> bool {
    match access {
        StoreAccess::Read => after == before,
        StoreAccess::WriteWord(k, d) => 0 <= k < before.len() && after == before.update(k, d),
        StoreAccess::WritePage(p, data) => page_words(after, p) == data && kept_outside_page(
            before,
            after,
            None,
            p,
        ),
    }
}

/// Whether `access` writes word `k`.
pub open spec fn writes_word(access: StoreAccess, k: int) -> bool {
    match access {
        StoreAccess::Read => false,
        StoreAccess::WriteWord(j, _) => j == k,
        StoreAccess::WritePage(p, _) => k / (PAGE_WORDS as int) == p,
    }
}

/// `views` are what reads see before and after each of `accesses`, in turn.
pub open spec fn store_history(views: Seq<Seq<u32>>, accesses: Seq<StoreAccess>) -> bool {
    &&& views.len() == accesses.len() + 1
    &&& forall|i: int|
        0 <= i < accesses.len() ==> accessed(views[i], #[trigger] accesses[i], views[i + 1])
}

proof fn lemma_store_word_kept(views: Seq<Seq<u32>>, accesses: Seq<StoreAccess>, k: int, i: int)
    requires
        store_history(views, accesses),
        0 <= k < views[0].len(),
        0 <= i < views.len(),
        forall|j: int| 0 < j < accesses.len() ==> !#[trigger] writes_word(accesses[j], k),
    ensures
        views[i].len() == views[0].len(),
        i >= 1 ==> views[i][k] == views[1][k],
    decreases i,
{
    if i > 0 {
        lemma_store_word_kept(views, accesses, k, i - 1);
        assert(accessed(views[i - 1], accesses[i - 1], views[i]));
        if i - 1 > 0 {
            assert(!writes_word(accesses[i - 1], k));
        }
    }
}

/// While a store is faithful, a word reads back as it was last written,
/// whatever other words and pages were read or written in between, and
/// whichever pages were loaded and evicted meanwhile.
pub proof fn law_store_read_after_write(
    views: Seq<Seq<u32>>,
    accesses: Seq<StoreAccess>,
    k: int,
    data: u32,
)
    requires
        store_history(views, accesses),
        accesses.len() >= 1,
        accesses[0] == StoreAccess::WriteWord(k, data),
        forall|j: int| 0 < j < accesses.len() ==> !#[trigger] writes_word(accesses[j], k),
    ensures
        views.last()[k] == data,
{
    assert(accessed(views[0], accesses[0], views[1]));
    lemma_store_word_kept(views, accesses, k, views.len() - 1);
}

/// While a store is faithful, a page reads back as it was last written,
/// whatever words and pages outside it were read or written in between.
pub proof fn law_store_page_read_after_write(
    views: Seq<Seq<u32>>,
    accesses: Seq<StoreAccess>,
    p: int,
    data: Seq<u32>,
)
    requires
        store_history(views, accesses),
        page_in_range(views[0], p),
        data.len() == PAGE_WORDS,
        accesses.len() >= 1,
        accesses[0] == StoreAccess::WritePage(p, data),
        forall|j: int, k: int|
            0 < j < accesses.len() && p * (PAGE_WORDS as int) <= k < (p + 1) * (
            PAGE_WORDS as int) ==> !#[trigger] writes_word(accesses[j], k),
    ensures
        page_words(views.last(), p) == data,
{
    assert(accessed(views[0], accesses[0], views[1]));
    let last = views.last();
    assert forall|i: int| 0 <= i < PAGE_WORDS as int implies #[trigger] page_words(last, p)[i]
        == data[i] by {
        let k = p * (PAGE_WORDS as int) + i;
        assert(forall|j: int| 0 < j < accesses.len() ==> !#[trigger] writes_word(accesses[j], k));
        lemma_store_word_kept(views, accesses, k, views.len() - 1);
        assert(views[1][k] == page_words(views[1], p)[i]);
    }
    lemma_store_word_kept(views, accesses, p * (PAGE_WORDS as int), views.len() - 1);
    assert(page_words(last, p) =~= data);
}

} // verus!
