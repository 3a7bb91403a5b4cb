//! LC-3 memory stored in a RAM-backed flash region.
//!
//! The 65536 16-bit LC-3 words are packed two to a 32-bit flash word: LC-3
//! address `a` lives in the low half of flash word `a / 2` when `a` is even
//! and in its high half when `a` is odd.
//!
//! Pages stored with `commit_page` last across a reset; words stored with
//! `write_word` do not: a journal keeps the word that each such write
//! replaced, and `reset` writes those words back, the latest first.
use vstd::prelude::*;
use core::marker::PhantomData;
use lc3_isa::{Addr, Word};
use crate::flash::{page_of, page_words, Read, WriteErase};
use crate::paging::{kept_outside, kept_outside_page, kept_outside_word, RAM_backed_flash};

verus! {

/// Words in one LC-3 memory page.
pub const PAGE_SIZE_IN_WORDS: u16 = 256;

/// Number of LC-3 addresses.
pub const LC3_ADDRESSES: usize = 0x1_0000;

/// The LC-3 word held in half of flash word `dword`: the high half for an odd
/// address, the low half for an even one.
pub open spec fn half_of(dword: u32, odd: bool) -> u16 {
    if odd {
        ((dword >> 16u32) & 0xFFFFu32) as u16
    } else {
        (dword & 0xFFFFu32) as u16
    }
}

/// The LC-3 memory that the flash words `words` hold.
pub open spec fn lc3_words(words: Seq<u32>) -> Seq<u16> {
    Seq::new(LC3_ADDRESSES as nat, |a: int| half_of(words[a / 2], a % 2 == 1))
}

/// The storage page that holds LC-3 address `a`.
pub open spec fn storage_page_of_lc3(a: int) -> int {
    a / 512
}

/// `new` agrees with `old` at every LC-3 address other than `target` that
/// does not lie in storage page `spill`.
pub open spec fn lc3_kept_outside(
    old: Seq<u16>,
    new: Seq<u16>,
    spill: Option<int>,
    target: Option<int>,
) -> bool {
    &&& new.len() == old.len()
    &&& forall|a: int|
        0 <= a < old.len() && target != Some(a) && spill != Some(storage_page_of_lc3(a))
            ==> #[trigger] new[a] == old[a]
}

/// `new` agrees with `old` outside LC-3 page `page` and storage page `spill`.
pub open spec fn lc3_kept_outside_page(
    old: Seq<u16>,
    new: Seq<u16>,
    spill: Option<int>,
    page: int,
) -> bool {
    &&& new.len() == old.len()
    &&& forall|a: int|
        0 <= a < old.len() && a / 256 != page && spill != Some(storage_page_of_lc3(a))
            ==> #[trigger] new[a] == old[a]
}

/// `after` is `before` with `w` written at LC-3 address `a`; the words of
/// storage page `spill` may also have changed.
pub open spec fn wrote(before: Seq<u16>, after: Seq<u16>, spill: Option<int>, a: int, w: u16) -> bool {
    &&& after[a] == w
    &&& lc3_kept_outside(before, after, spill, Some(a))
}

/// `r` is the word at LC-3 address `a` of `before`, and reading it changed at
/// most the words of storage page `spill`.
pub open spec fn read_back(before: Seq<u16>, after: Seq<u16>, spill: Option<int>, a: int, r: u16) -> bool {
    &&& r == before[a]
    &&& lc3_kept_outside(before, after, spill, None)
}

/// `after` is `before` with LC-3 page `p` replaced by `page`; the words of
/// storage page `spill` may also have changed.
pub open spec fn committed(
    before: Seq<u16>,
    after: Seq<u16>,
    spill: Option<int>,
    p: int,
    page: Seq<u16>,
) -> bool {
    &&& forall|i: int| 0 <= i < 256 ==> #[trigger] after[p * 256 + i] == page[i]
    &&& lc3_kept_outside_page(before, after, spill, p)
}

/// The flash word that packs LC-3 word `word` at an address of parity `odd`
/// into `dword`, keeping the other half of `dword`.
pub open spec fn packed(dword: u32, odd: bool, word: u16) -> u32 {
    if odd {
        (((word as u32) << 16u32) + (dword & 0xFFFFu32) as u16 as u32) as u32
    } else {
        ((dword & !0xFFFFu32) + word as u32) as u32
    }
}

proof fn lemma_halves(d: u32)
    ensures
        half_of(d, false) == (d & 0xFFFFu32) as u16,
        half_of(d, true) == ((d >> 16u32) & 0xFFFFu32) as u16,
{
}

proof fn lemma_packed(d: u32, w: u16)
    ensures
        ((w as u32) << 16u32) + (d & 0xFFFFu32) as u16 as u32 <= u32::MAX,
        (d & !0xFFFFu32) + w as u32 <= u32::MAX,
        half_of(packed(d, true, w), true) == w,
        half_of(packed(d, true, w), false) == half_of(d, false),
        half_of(packed(d, false, w), false) == w,
        half_of(packed(d, false, w), true) == half_of(d, true),
{
    let lo: u16 = (d & 0xFFFFu32) as u16;
    assert(((w as u32) << 16u32) + lo as u32 <= u32::MAX) by (bit_vector);
    assert((d & !0xFFFFu32) + w as u32 <= u32::MAX) by (bit_vector);
    let hi_new: u32 = (((w as u32) << 16u32) + lo as u32) as u32;
    assert(((hi_new >> 16u32) & 0xFFFFu32) as u16 == w) by (bit_vector)
        requires
            hi_new == ((w as u32) << 16u32) + lo as u32,
    ;
    assert((hi_new & 0xFFFFu32) as u16 == lo) by (bit_vector)
        requires
            hi_new == ((w as u32) << 16u32) + lo as u32,
    ;
    let lo_new: u32 = ((d & !0xFFFFu32) + w as u32) as u32;
    assert((lo_new & 0xFFFFu32) as u16 == w) by (bit_vector)
        requires
            lo_new == (d & !0xFFFFu32) + w as u32,
    ;
    assert(((lo_new >> 16u32) & 0xFFFFu32) as u16 == ((d >> 16u32) & 0xFFFFu32) as u16)
        by (bit_vector)
        requires
            lo_new == (d & !0xFFFFu32) + w as u32,
    ;
}

proof fn lemma_dword_address(a: u16)
    ensures
        (((a as usize) * 2) as usize) & !0x3usize == (a as usize / 2) * 4,
{
    let x: usize = ((a as usize) * 2) as usize;
    assert(x & !0x3usize == (x / 4) * 4) by (bit_vector);
}

/// `v` with LC-3 page `p` replaced by `page`.
pub open spec fn page_replaced(v: Seq<u16>, p: int, page: Seq<u16>) -> Seq<u16> {
    Seq::new(v.len(), |a: int| if a / 256 == p { page[a % 256] } else { v[a] })
}

/// The memory `v` with the writes that `journal` records taken back, the
/// latest first. An entry `(a, w)` records that address `a` held `w` before
/// it was written.
pub open spec fn rolled_back(journal: Seq<(u16, u16)>, v: Seq<u16>) -> Seq<u16>
    decreases journal.len(),
{
    if journal.len() == 0 {
        v
    } else {
        rolled_back(journal.drop_last(), v.update(journal.last().0 as int, journal.last().1))
    }
}

/// The entries of `journal` whose address lies outside LC-3 page `p`, in order.
pub open spec fn entries_outside(journal: Seq<(u16, u16)>, p: int) -> Seq<(u16, u16)>
    decreases journal.len(),
{
    if journal.len() == 0 {
        journal
    } else if journal.last().0 as int / 256 == p {
        entries_outside(journal.drop_last(), p)
    } else {
        entries_outside(journal.drop_last(), p).push(journal.last())
    }
}

/// A reset takes back a write: taking back the journal after a write that
/// recorded the word it replaced gives what taking it back before gave.
pub proof fn law_reset_undoes_write(journal: Seq<(u16, u16)>, v: Seq<u16>, a: u16, w: u16)
    requires
        v.len() == LC3_ADDRESSES,
    ensures
        rolled_back(journal.push((a, v[a as int])), v.update(a as int, w)) == rolled_back(journal, v),
{
    let j = journal.push((a, v[a as int]));
    assert(j.drop_last() =~= journal);
    assert(v.update(a as int, w).update(a as int, v[a as int]) =~= v);
}

/// A committed page survives a reset: committing a page and then taking back
/// the writes outside it gives the memory that taking back every write and
/// then committing the page gives.
pub proof fn law_commit_survives_reset(journal: Seq<(u16, u16)>, v: Seq<u16>, p: int, page: Seq<u16>)
    requires
        v.len() == LC3_ADDRESSES,
    ensures
        rolled_back(entries_outside(journal, p), page_replaced(v, p, page)) == page_replaced(
            rolled_back(journal, v),
            p,
            page,
        ),
    decreases journal.len(),
{
    if journal.len() > 0 {
        let e = journal.last();
        let rest = journal.drop_last();
        let v1 = v.update(e.0 as int, e.1);
        law_commit_survives_reset(rest, v1, p, page);
        if e.0 as int / 256 == p {
            assert(page_replaced(v1, p, page) =~= page_replaced(v, p, page));
        } else {
            let kept = entries_outside(rest, p);
            assert(kept.push(e).drop_last() =~= kept);
            assert(page_replaced(v1, p, page) =~= page_replaced(v, p, page).update(e.0 as int, e.1));
        }
    }
}

/// LC-3 memory kept in the word store `RAM_backed_flash_controller`, with the
/// metadata of the program it holds. `journal` records, for each word written
/// by `write_word` since its page was last committed, the word it replaced;
/// `persisted` is the memory that a reset returns to.
pub struct RAM_backed_flash_memory<T: RAM_backed_flash, U: Read + WriteErase, M> {
    pub program_data: M,
    pub RAM_backed_flash_controller: T,
    pub phantom: PhantomData<U>,
    pub journal: Vec<(u16, u16)>,
    pub persisted: Ghost<Seq<u16>>,
}

impl<T: RAM_backed_flash, U: Read + WriteErase, M> RAM_backed_flash_memory<T, U, M> {
    /// The word store covers every LC-3 address.
    pub open spec fn covers(&self) -> bool {
        &&& self.RAM_backed_flash_controller.ready()
        &&& forall|a: int|
            0 <= a < 2 * LC3_ADDRESSES as int ==> #[trigger] self.RAM_backed_flash_controller.addressable(
                a,
            )
    }

    /// The word store covers every LC-3 address and, while it is faithful,
    /// taking back the journal's writes gives the persisted memory.
    pub open spec fn wf(&self) -> bool {
        &&& self.covers()
        &&& self.RAM_backed_flash_controller.faithful() ==> rolled_back(
            self.journal@,
            self.lc3_view(),
        ) == self.persisted@
    }

    /// Every write-back of the word store so far succeeded.
    pub open spec fn faithful(&self) -> bool {
        self.RAM_backed_flash_controller.faithful()
    }

    proof fn lemma_covers(&self)
        requires
            self.covers(),
        ensures
            self.RAM_backed_flash_controller.memory().len() >= 0x8000,
    {
        self.RAM_backed_flash_controller.lemma_addressable(2 * LC3_ADDRESSES as int - 4);
    }

    /// The LC-3 memory.
    pub open spec fn lc3_view(&self) -> Seq<u16> {
        lc3_words(self.RAM_backed_flash_controller.memory())
    }

    /// The storage page written back when LC-3 address `a` is accessed next.
    pub open spec fn spill(&self, a: int) -> Option<int> {
        self.RAM_backed_flash_controller.spill((a / 2) * 4)
    }

    /// LC-3 memory kept in `RAM_flash_controller_init`, holding the metadata
    /// `program_data`.
    pub fn new(RAM_flash_controller_init: T, program_data: M) -> (r: RAM_backed_flash_memory<
        T,
        U,
        M,
    >)
        ensures
            r.RAM_backed_flash_controller == RAM_flash_controller_init,
            r.program_data == program_data,
            r.journal@.len() == 0,
            r.persisted@ == r.lc3_view(),
    {
        RAM_backed_flash_memory {
            program_data,
            RAM_backed_flash_controller: RAM_flash_controller_init,
            phantom: PhantomData,
            journal: Vec::new(),
            persisted: Ghost(lc3_words(RAM_flash_controller_init.memory())),
        }
    }

    /// The LC-3 word at `addr`.
    pub fn read_word(&mut self, addr: Addr) -> (w: Word)
        requires
            old(self).wf(),
        ensures
            final(self).wf(),
            final(self).faithful() ==> old(self).faithful() && final(self).lc3_view() == old(
                self,
            ).lc3_view(),
            final(self).faithful() ==> lc3_accessed(
                old(self).lc3_view(),
                Lc3Access::Read,
                final(self).lc3_view(),
            ),
            final(self).journal == old(self).journal,
            final(self).persisted == old(self).persisted,
            read_back(
                old(self).lc3_view(),
                final(self).lc3_view(),
                old(self).spill(addr as int),
                addr as int,
                w,
            ),
            final(self).spill(addr as int) is None,
            final(self).program_data == old(self).program_data,
    {
        let mut desired_word: Word = 0;
        proof {
            lemma_dword_address(addr);
            self.RAM_backed_flash_controller.lemma_addressable((addr as int / 2) * 4);
            self.lemma_covers();
        }
        let dword: u32 = self.RAM_backed_flash_controller.read_word((addr as usize) * 2 & !0x3);
        let first_word: u16 = (dword & 0xFFFF) as u16;
        let second_word: u16 = ((dword >> 16) & 0xFFFF) as u16;
        if addr & 0x1 == 1 {
            desired_word = second_word;
        } else {
            desired_word = first_word;
        }
        proof {
            assert(addr & 0x1 == 1 <==> addr % 2 == 1) by (bit_vector);
            lemma_halves(dword);
            lemma_lc3_kept_read(
                old(self).RAM_backed_flash_controller.memory(),
                self.RAM_backed_flash_controller.memory(),
                old(self).spill(addr as int),
            );
        }
        desired_word
    }

    /// Stores `word` at LC-3 address `addr`. The change lasts until the next
    /// reset, unless the page that holds `addr` is committed before it.
    pub fn write_word(&mut self, addr: Addr, word: Word)
        requires
            old(self).wf(),
        ensures
            final(self).wf(),
            wrote(
                old(self).lc3_view(),
                final(self).lc3_view(),
                old(self).spill(addr as int),
                addr as int,
                word,
            ),
            final(self).faithful() ==> old(self).faithful() && final(self).lc3_view() == old(
                self,
            ).lc3_view().update(addr as int, word),
            final(self).faithful() ==> lc3_accessed(
                old(self).lc3_view(),
                Lc3Access::WriteWord(addr as int, word),
                final(self).lc3_view(),
            ),
            final(self).spill(addr as int) is None,
            final(self).program_data == old(self).program_data,
            final(self).persisted == old(self).persisted,
    {
        let prev: Word = self.store_word(addr, word);
        self.journal.push((addr, prev));
        proof {
            if self.faithful() {
                law_reset_undoes_write(old(self).journal@, old(self).lc3_view(), addr, word);
            }
        }
    }

    /// Stores `word` at LC-3 address `addr`, keeping the other LC-3 word that
    /// shares its flash word, and returns the word it replaced.
    fn store_word(&mut self, addr: Addr, word: Word) -> (prev: Word)
        requires
            old(self).covers(),
        ensures
            final(self).covers(),
            prev == old(self).lc3_view()[addr as int],
            wrote(
                old(self).lc3_view(),
                final(self).lc3_view(),
                old(self).spill(addr as int),
                addr as int,
                word,
            ),
            final(self).faithful() ==> old(self).faithful() && final(self).lc3_view() == old(
                self,
            ).lc3_view().update(addr as int, word),
            final(self).spill(addr as int) is None,
            final(self).program_data == old(self).program_data,
            final(self).journal == old(self).journal,
            final(self).persisted == old(self).persisted,
    {
        let mut desired_dword: u32 = 0;
        let ghost t = addr as int / 2;
        proof {
            lemma_dword_address(addr);
            self.RAM_backed_flash_controller.lemma_addressable((addr as int / 2) * 4);
            self.lemma_covers();
        }
        let ctrl_inst = &mut self.RAM_backed_flash_controller;
        let dword: u32 = ctrl_inst.read_word((addr as usize) * 2 & (!0x3));
        let ghost mid = ctrl_inst.memory();
        let first_word: u16 = (dword & 0xFFFF) as u16;
        let second_word: u16 = ((dword >> 16) & 0xFFFF) as u16;
        proof {
            lemma_packed(dword, word);
            assert(addr & 0x1 == 1 <==> addr % 2 == 1) by (bit_vector);
        }
        if addr & 0x1 == 1 {
            desired_dword = ((word as u32) << 16) + first_word as u32;
        } else {
            desired_dword = (dword & !0xFFFF) + word as u32;
        }
        assert(desired_dword == packed(dword, addr % 2 == 1, word));
        proof {
            ctrl_inst.lemma_addressable((addr as int / 2) * 4);
        }
        ctrl_inst.write_word((addr as usize) * 2 & (!0x3), desired_dword);
        proof {
            lemma_packed(dword, word);
            lemma_halves(dword);
            assert(dword == old(self).RAM_backed_flash_controller.memory()[t]);
            lemma_lc3_kept_write(
                old(self).RAM_backed_flash_controller.memory(),
                mid,
                self.RAM_backed_flash_controller.memory(),
                old(self).spill(addr as int),
                addr as int,
                word,
            );
            if self.faithful() {
                lemma_lc3_kept_write(
                    old(self).RAM_backed_flash_controller.memory(),
                    mid,
                    self.RAM_backed_flash_controller.memory(),
                    None,
                    addr as int,
                    word,
                );
                assert(self.lc3_view() =~= old(self).lc3_view().update(addr as int, word));
            }
        }
        if addr & 0x1 == 1 {
            second_word
        } else {
            first_word
        }
    }

    /// Stores LC-3 page `_page_idx`, whose words are `_page`, into the half
    /// of the flash page that holds it.
    pub fn commit_page(&mut self, _page_idx: u8, _page: &[Word; 256])
        requires
            old(self).wf(),
        ensures
            final(self).wf(),
            committed(
                old(self).lc3_view(),
                final(self).lc3_view(),
                old(self).RAM_backed_flash_controller.spill((_page_idx as int / 2) * 1024),
                _page_idx as int,
                _page@,
            ),
            final(self).faithful() ==> old(self).faithful() && final(self).lc3_view()
                == page_replaced(old(self).lc3_view(), _page_idx as int, _page@),
            final(self).faithful() ==> lc3_accessed(
                old(self).lc3_view(),
                Lc3Access::CommitPage(_page_idx as int, _page@),
                final(self).lc3_view(),
            ),
            final(self).journal@ == entries_outside(old(self).journal@, _page_idx as int),
            final(self).persisted@ == page_replaced(
                old(self).persisted@,
                _page_idx as int,
                _page@,
            ),
            final(self).program_data == old(self).program_data,
    {
        let mut write_buffer: [u32; 256] = [0; 256];
        proof {
            lemma_page_address(_page_idx);
            self.RAM_backed_flash_controller.lemma_addressable((_page_idx as int / 2) * 1024);
            self.lemma_covers();
            assert((_page_idx as usize) & 0x1 <= 1) by (bit_vector);
        }
        let addr: usize = ((_page_idx as usize) * 512) & (!0x3FF);
        let ctrl_inst = &mut self.RAM_backed_flash_controller;
        write_buffer = ctrl_inst.read_page(addr);
        let ghost fetched = write_buffer@;
        let ghost mid = ctrl_inst.memory();
        let RAM_modified_half_page_offset: usize = (((_page_idx as usize) & 0x1) * 512) as usize;
        proof {
            assert((_page_idx as usize) & 0x1 == (_page_idx as usize) % 2) by (bit_vector);
        }
        let mut i: u16 = 0;
        while i < PAGE_SIZE_IN_WORDS / 2
            invariant
                i <= 128,
                RAM_modified_half_page_offset == (_page_idx as int % 2) * 512,
                forall|j: int|
                    0 <= j < 256 && !(RAM_modified_half_page_offset / 4 <= j
                        < RAM_modified_half_page_offset / 4 + i) ==> #[trigger] write_buffer@[j]
                        == fetched[j],
                forall|j: int|
                    0 <= j < i ==> #[trigger] write_buffer@[RAM_modified_half_page_offset / 4 + j]
                        == _page@[2 * j] as u32 + ((_page@[2 * j + 1] as u32) << 16u32) as u32,
            decreases 128 - i,
        {
            proof {
                lemma_pack_pair(_page@[2 * i as int], _page@[2 * i as int + 1]);
            }
            write_buffer[(RAM_modified_half_page_offset / 4) + i as usize] = (_page[(2 * i)
                as usize] as u32) + ((_page[(2 * i + 1) as usize] as u32) << 16) as u32;
            i = i + 1;
        }
        proof {
            ctrl_inst.lemma_addressable((_page_idx as int / 2) * 1024);
        }
        ctrl_inst.write_page(addr, write_buffer);
        proof {
            lemma_lc3_commit(
                old(self).RAM_backed_flash_controller.memory(),
                mid,
                self.RAM_backed_flash_controller.memory(),
                old(self).RAM_backed_flash_controller.spill((_page_idx as int / 2) * 1024),
                _page_idx as int,
                _page@,
                write_buffer@,
                fetched,
            );
            if self.faithful() {
                let p = _page_idx as int;
                let before = old(self).lc3_view();
                let after = self.lc3_view();
                lemma_lc3_commit(
                    old(self).RAM_backed_flash_controller.memory(),
                    mid,
                    self.RAM_backed_flash_controller.memory(),
                    None,
                    p,
                    _page@,
                    write_buffer@,
                    fetched,
                );
                assert forall|a: int| 0 <= a < after.len() implies #[trigger] after[a]
                    == page_replaced(before, p, _page@)[a] by {
                    if a / 256 == p {
                        assert(a == p * 256 + a % 256);
                    }
                }
                assert(after =~= page_replaced(before, p, _page@));
                law_commit_survives_reset(old(self).journal@, before, p, _page@);
            }
        }
        let mut kept: Vec<(u16, u16)> = Vec::new();
        let mut k: usize = 0;
        while k < self.journal.len()
            invariant
                k <= self.journal@.len(),
                kept@ == entries_outside(self.journal@.subrange(0, k as int), _page_idx as int),
            decreases self.journal@.len() - k,
        {
            let e: (u16, u16) = self.journal[k];
            if e.0 / 256 != _page_idx as u16 {
                kept.push(e);
            }
            proof {
                assert(self.journal@.subrange(0, k + 1).drop_last() =~= self.journal@.subrange(
                    0,
                    k as int,
                ));
            }
            k = k + 1;
        }
        proof {
            assert(self.journal@.subrange(0, self.journal@.len() as int) =~= self.journal@);
        }
        self.journal = kept;
        proof {
            self.persisted = Ghost(page_replaced(self.persisted@, _page_idx as int, _page@));
        }
    }

    /// Returns the memory to what it held when it was made, with every
    /// committed page applied: the words that `write_word` changed since
    /// their page was last committed take back their earlier values.
    pub fn reset(&mut self)
        requires
            old(self).wf(),
        ensures
            final(self).wf(),
            final(self).faithful() ==> old(self).faithful() && final(self).lc3_view() == old(
                self,
            ).persisted@,
            final(self).journal@.len() == 0,
            final(self).persisted == old(self).persisted,
            final(self).program_data == old(self).program_data,
    {
        let mut j: usize = self.journal.len();
        proof {
            assert(self.journal@.subrange(0, j as int) =~= self.journal@);
        }
        while j > 0
            invariant
                j <= self.journal@.len(),
                self.covers(),
                self.faithful() ==> old(self).faithful() && rolled_back(
                    self.journal@.subrange(0, j as int),
                    self.lc3_view(),
                ) == self.persisted@,
                self.journal == old(self).journal,
                self.persisted == old(self).persisted,
                self.program_data == old(self).program_data,
            decreases j,
        {
            let e: (u16, u16) = self.journal[j - 1];
            self.store_word(e.0, e.1);
            proof {
                let sub = self.journal@.subrange(0, j as int);
                assert(sub.drop_last() =~= self.journal@.subrange(0, j - 1));
                assert(sub.last() == e);
            }
            j = j - 1;
        }
        self.journal = Vec::new();
        proof {
            assert(self.journal@ =~= Seq::<(u16, u16)>::empty());
        }
    }

    /// The metadata of the program held.
    pub fn get_program_metadata(&self) -> (r: M)
        where
            M: Clone,
        ensures
            cloned(self.program_data, r),
    {
        self.program_data.clone()
    }

    /// Records `metadata` as the metadata of the program held.
    pub fn set_program_metadata(&mut self, metadata: M)
        ensures
            final(self).program_data == metadata,
            final(self).RAM_backed_flash_controller == old(self).RAM_backed_flash_controller,
            final(self).journal == old(self).journal,
            final(self).persisted == old(self).persisted,
    {
        self.program_data = metadata
    }
}

proof fn lemma_page_address(p: u8)
    ensures
        (((p as usize) * 512) as usize) & !0x3FFusize == (p as usize / 2) * 1024,
{
    let x: usize = ((p as usize) * 512) as usize;
    assert(x & !0x3FFusize == (x / 1024) * 1024) by (bit_vector);
}

proof fn lemma_pack_pair(lo: u16, hi: u16)
    ensures
        lo as u32 + ((hi as u32) << 16u32) as u32 <= u32::MAX,
        half_of((lo as u32 + ((hi as u32) << 16u32) as u32) as u32, false) == lo,
        half_of((lo as u32 + ((hi as u32) << 16u32) as u32) as u32, true) == hi,
{
    assert(lo as u32 + ((hi as u32) << 16u32) as u32 <= u32::MAX) by (bit_vector);
    let d: u32 = (lo as u32 + ((hi as u32) << 16u32) as u32) as u32;
    assert((d & 0xFFFFu32) as u16 == lo && ((d >> 16u32) & 0xFFFFu32) as u16 == hi)
        by (bit_vector)
        requires
            d == lo as u32 + ((hi as u32) << 16u32) as u32,
    ;
}

proof fn lemma_lc3_kept_read(old_m: Seq<u32>, new_m: Seq<u32>, spill: Option<int>)
    requires
        old_m.len() >= 0x8000,
        kept_outside(old_m, new_m, spill),
    ensures
        lc3_kept_outside(lc3_words(old_m), lc3_words(new_m), spill, None),
{
    assert forall|a: int|
        0 <= a < LC3_ADDRESSES as int && spill != Some(storage_page_of_lc3(a)) implies #[trigger] lc3_words(
        new_m,
    )[a] == lc3_words(old_m)[a] by {
        assert((a / 2) / 256 == a / 512);
        if a / 2 < old_m.len() {
            assert(new_m[a / 2] == old_m[a / 2]);
        }
    }
}

proof fn lemma_lc3_kept_write(
    old_m: Seq<u32>,
    mid_m: Seq<u32>,
    new_m: Seq<u32>,
    spill: Option<int>,
    a: int,
    w: u16,
)
    requires
        0 <= a < LC3_ADDRESSES as int,
        old_m.len() >= 0x8000,
        spill != Some(a / 512),
        kept_outside(old_m, mid_m, spill),
        kept_outside_word(mid_m, new_m, None, a / 2),
        new_m[a / 2] == packed(old_m[a / 2], a % 2 == 1, w),
    ensures
        lc3_words(new_m)[a] == w,
        lc3_kept_outside(lc3_words(old_m), lc3_words(new_m), spill, Some(a)),
{
    lemma_packed(old_m[a / 2], w);
    assert forall|b: int|
        0 <= b < LC3_ADDRESSES as int && Some(a) != Some(b) && spill != Some(storage_page_of_lc3(b))
            implies #[trigger] lc3_words(new_m)[b] == lc3_words(old_m)[b] by {
        assert((b / 2) / 256 == b / 512);
        if b / 2 < old_m.len() {
            if b / 2 == a / 2 {
                assert(b % 2 != a % 2);
            } else {
                assert(new_m[b / 2] == mid_m[b / 2]);
                assert(mid_m[b / 2] == old_m[b / 2]);
            }
        }
    }
}

proof fn lemma_lc3_commit(
    old_m: Seq<u32>,
    mid_m: Seq<u32>,
    new_m: Seq<u32>,
    spill: Option<int>,
    p: int,
    page: Seq<u16>,
    buffer: Seq<u32>,
    fetched: Seq<u32>,
)
    requires
        0 <= p < 256,
        page.len() == 256,
        buffer.len() == 256,
        old_m.len() >= 0x8000,
        spill != Some(p / 2),
        kept_outside(old_m, mid_m, spill),
        fetched == page_words(old_m, p / 2),
        page_words(new_m, p / 2) == buffer,
        kept_outside_page(mid_m, new_m, None, p / 2),
        forall|j: int|
            0 <= j < 256 && !((p % 2) * 128 <= j < (p % 2) * 128 + 128) ==> #[trigger] buffer[j]
                == fetched[j],
        forall|j: int|
            0 <= j < 128 ==> #[trigger] buffer[(p % 2) * 128 + j] == page[2 * j] as u32 + ((
            page[2 * j + 1] as u32) << 16u32) as u32,
    ensures
        forall|i: int| 0 <= i < 256 ==> #[trigger] lc3_words(new_m)[p * 256 + i] == page[i],
        lc3_kept_outside_page(lc3_words(old_m), lc3_words(new_m), spill, p),
{
    assert forall|i: int| 0 <= i < 256 implies #[trigger] lc3_words(new_m)[p * 256 + i]
        == page[i] by {
        let a = p * 256 + i;
        let j = i / 2;
        assert(a / 2 == (p / 2) * 256 + (p % 2) * 128 + j);
        assert(new_m[a / 2] == buffer[(p % 2) * 128 + j]);
        lemma_pack_pair(page[2 * j], page[2 * j + 1]);
        assert(a % 2 == i % 2);
    }
    assert forall|b: int|
        0 <= b < LC3_ADDRESSES as int && b / 256 != p && spill != Some(storage_page_of_lc3(b)) implies #[trigger] lc3_words(
        new_m,
    )[b] == lc3_words(old_m)[b] by {
        let k = b / 2;
        assert(k / 256 == b / 512);
        if k / 256 == p / 2 {
            let j = k % 256;
            assert(k == (p / 2) * 256 + j);
            assert(new_m[k] == buffer[j]);
            assert(!((p % 2) * 128 <= j < (p % 2) * 128 + 128));
            assert(buffer[j] == fetched[j]);
            assert(fetched[j] == old_m[k]);
        } else {
            assert(new_m[k] == mid_m[k]);
            assert(mid_m[k] == old_m[k]);
        }
    }
}

} // verus!

verus! {

/// A read of an LC-3 address returns the word last written there.
pub proof fn law_read_after_write(
    v0: Seq<u16>,
    v1: Seq<u16>,
    v2: Seq<u16>,
    spill_write: Option<int>,
    spill_read: Option<int>,
    a: int,
    w: u16,
    r: u16,
)
    requires
        wrote(v0, v1, spill_write, a, w),
        read_back(v1, v2, spill_read, a, r),
    ensures
        r == w,
{
}

/// A write changes no LC-3 address but its own, outside the storage page it
/// writes back.
pub proof fn law_write_isolation(
    v0: Seq<u16>,
    v1: Seq<u16>,
    spill: Option<int>,
    a: int,
    w: u16,
    b: int,
)
    requires
        wrote(v0, v1, spill, a, w),
        0 <= b < v0.len(),
        b != a,
        spill != Some(storage_page_of_lc3(b)),
    ensures
        v1[b] == v0[b],
{
}

/// A read that writes nothing back leaves the LC-3 memory as it was.
pub proof fn law_read_keeps_memory(v0: Seq<u16>, v1: Seq<u16>, a: int, r: u16)
    requires
        read_back(v0, v1, None, a, r),
    ensures
        v1 == v0,
{
    assert(v1 =~= v0);
}

/// After a page is committed, each of its addresses reads as the word the
/// page gave it.
pub proof fn law_read_after_commit(
    v0: Seq<u16>,
    v1: Seq<u16>,
    v2: Seq<u16>,
    spill_commit: Option<int>,
    spill_read: Option<int>,
    p: int,
    page: Seq<u16>,
    i: int,
    r: u16,
)
    requires
        0 <= i < 256,
        committed(v0, v1, spill_commit, p, page),
        read_back(v1, v2, spill_read, p * 256 + i, r),
    ensures
        r == page[i],
{
    assert(v1[p * 256 + i] == page[i]);
}

/// An access to the LC-3 memory: a read, a write of address `a`, or a
/// commit of page `p`.
pub enum Lc3Access {
    Read,
    WriteWord(int, u16),
    CommitPage(int, Seq<u16>),
}

/// `after` is the LC-3 memory once `access` has been made to `before`, as
/// the contracts of `RAM_backed_flash_memory` give it while its word store
/// is faithful.
pub open spec fn lc3_accessed(before: Seq<u16>, access: Lc3Access, after: Seq<u16>) -> bool {
    match access {
        Lc3Access::Read => after == before,
        Lc3Access::WriteWord(a, w) => 0 <= a < before.len() && after == before.update(a, w),
        Lc3Access::CommitPage(p, page) => after == page_replaced(before, p, page),
    }
}

/// Whether `access` writes LC-3 address `a`.
pub open spec fn lc3_writes(access: Lc3Access, a: int) -> bool {
    match access {
        Lc3Access::Read => false,
        Lc3Access::WriteWord(b, _) => b == a,
        Lc3Access::CommitPage(p, _) => a / 256 == p,
    }
}

/// `views` are the LC-3 memory before and after each of `accesses`, in turn.
pub open spec fn lc3_history(views: Seq<Seq<u16>>, accesses: Seq<Lc3Access>) -> bool {
    &&& views.len() == accesses.len() + 1
    &&& forall|i: int|
        0 <= i < accesses.len() ==> lc3_accessed(views[i], #[trigger] accesses[i], views[i + 1])
}

proof fn lemma_lc3_word_kept(views: Seq<Seq<u16>>, accesses: Seq<Lc3Access>, a: int, i: int)
    requires
        lc3_history(views, accesses),
        0 <= a < views[0].len(),
        1 <= i < views.len(),
        forall|j: int| 0 < j < accesses.len() ==> !#[trigger] lc3_writes(accesses[j], a),
    ensures
        views[i].len() == views[1].len(),
        views[i][a] == views[1][a],
    decreases i,
{
    assert(lc3_accessed(views[0], accesses[0], views[1]));
    if i > 1 {
        lemma_lc3_word_kept(views, accesses, a, i - 1);
        assert(lc3_accessed(views[i - 1], accesses[i - 1], views[i]));
        assert(!lc3_writes(accesses[i - 1], a));
    }
}

/// A read of an LC-3 address gives the word last written there, whatever
/// other addresses were read, written or committed in between, while the
/// word store is faithful.
pub proof fn law_lc3_read_after_writes(
    views: Seq<Seq<u16>>,
    accesses: Seq<Lc3Access>,
    a: int,
    w: u16,
)
    requires
        lc3_history(views, accesses),
        accesses.len() >= 1,
        accesses[0] == Lc3Access::WriteWord(a, w),
        forall|j: int| 0 < j < accesses.len() ==> !#[trigger] lc3_writes(accesses[j], a),
    ensures
        views.last()[a] == w,
{
    assert(lc3_accessed(views[0], accesses[0], views[1]));
    lemma_lc3_word_kept(views, accesses, a, views.len() - 1);
}

/// After a page is committed, each of its addresses reads as the page gave
/// it, whatever other addresses were read, written or committed in between,
/// while the word store is faithful.
pub proof fn law_lc3_read_after_commits(
    views: Seq<Seq<u16>>,
    accesses: Seq<Lc3Access>,
    p: int,
    page: Seq<u16>,
    i: int,
)
    requires
        lc3_history(views, accesses),
        0 <= p < 256,
        0 <= i < 256,
        views[0].len() == LC3_ADDRESSES,
        accesses.len() >= 1,
        accesses[0] == Lc3Access::CommitPage(p, page),
        forall|j: int|
            0 < j < accesses.len() ==> !#[trigger] lc3_writes(accesses[j], p * 256 + i),
    ensures
        views.last()[p * 256 + i] == page[i],
{
    assert(lc3_accessed(views[0], accesses[0], views[1]));
    assert((p * 256 + i) / 256 == p);
    assert((p * 256 + i) % 256 == i);
    lemma_lc3_word_kept(views, accesses, p * 256 + i, views.len() - 1);
}

} // verus!
