//! Flash storage: the traits a storage device implements, the model of its
//! contents that their contracts speak of, and the arithmetic the TM4C flash
//! controller driver performs on its registers.
use vstd::prelude::*;

verus! {

/// Words in one erase page of the storage region.
pub const PAGE_WORDS: usize = 256;

/// Bytes in one erase page of the storage region.
pub const PAGE_BYTES: usize = 1024;

/// Value that every word of an erased page reads as.
pub const ERASED_WORD: u32 = 0xFFFF_FFFF;

/// Index of the page that holds byte address `address`.
pub open spec fn page_of(address: int) -> int {
    address / (PAGE_BYTES as int)
}

/// Index of the first word of page `page`.
pub open spec fn page_first_word(page: int) -> int {
    page * (PAGE_WORDS as int)
}

/// The words of page `page`.
pub open spec fn page_words(words: Seq<u32>, page: int) -> Seq<u32> {
    words.subrange(page_first_word(page), page_first_word(page) + PAGE_WORDS as int)
}

/// Whether page `page` lies within a region of `words`.
pub open spec fn page_in_range(words: Seq<u32>, page: int) -> bool {
    0 <= page && page_first_word(page) + PAGE_WORDS as int <= words.len()
}

/// `words` after page `page` has been erased.
pub open spec fn erased(words: Seq<u32>, page: int) -> Seq<u32> {
    Seq::new(
        words.len(),
        |k: int|
            if k / (PAGE_WORDS as int) == page {
                ERASED_WORD
            } else {
                words[k]
            },
    )
}

/// `words` after `data` has been programmed from word `first` on. Programming
/// can only clear bits, so each stored word becomes the bitwise and of what it
/// held and what is programmed.
pub open spec fn programmed(words: Seq<u32>, first: int, data: Seq<u32>) -> Seq<u32> {
    Seq::new(
        words.len(),
        |k: int|
            if first <= k < first + data.len() {
                words[k] & data[k - first]
            } else {
                words[k]
            },
    )
}

/// `a` and `b` have the same length and agree outside words `lo..hi`.
pub open spec fn same_outside(a: Seq<u32>, b: Seq<u32>, lo: int, hi: int) -> bool {
    &&& a.len() == b.len()
    &&& forall|k: int| 0 <= k < a.len() && !(lo <= k < hi) ==> #[trigger] a[k] == b[k]
}

/// What a storage region holds, word by word.
pub trait FlashStorage {
    /// The words of the storage region; word `k` sits at byte address `4 * k`.
    spec fn storage_words(&self) -> Seq<u32>;

    /// Every erase and program asked of the device so far succeeded.
    spec fn healthy(&self) -> bool;
}

/// Reading from a flash storage region.
pub trait Read: FlashStorage {
    type Error;

    fn read<WORD: From<u32>>(&self, addr: usize) -> Result<WORD, Self::Error>;

    /// Reads the whole page that holds byte address `address`.
    fn read_page(&mut self, address: usize) -> (page: [u32; 256])
        requires
            page_in_range(old(self).storage_words(), page_of(address as int)),
        ensures
            final(self).storage_words() == old(self).storage_words(),
            final(self).healthy() == old(self).healthy(),
            page@ == page_words(old(self).storage_words(), page_of(address as int)),
    ;
}

/// Erasing and programming a flash storage region.
pub trait WriteErase: FlashStorage {
    type Error;

    type Status;

    fn status(&self) -> Result<Self::Status, Self::Error>;

    /// Erases the page that holds byte address `address`. When it fails, the
    /// other pages are untouched, nothing is known of that page, and the
    /// device is no longer healthy.
    fn erase_page(&mut self, address: usize) -> (r: Result<(), Self::Error>)
        requires
            page_in_range(old(self).storage_words(), page_of(address as int)),
        ensures
            final(self).healthy() ==> old(self).healthy() && r is Ok,
            r is Ok ==> final(self).healthy() == old(self).healthy(),
            r is Ok ==> final(self).storage_words() == erased(
                old(self).storage_words(),
                page_of(address as int),
            ),
            same_outside(
                old(self).storage_words(),
                final(self).storage_words(),
                page_first_word(page_of(address as int)),
                page_first_word(page_of(address as int)) + PAGE_WORDS as int,
            ),
    ;

    fn program_word(&mut self, address: usize, value: u32) -> Result<(), Self::Error>;

    /// Programs `data` into consecutive words from byte address `address` on.
    /// When it fails, the words outside that range are untouched, nothing is
    /// known of the words inside it, and the device is no longer healthy.
    fn program_page(&mut self, address: usize, data: &[u32]) -> (r: Result<(), Self::Error>)
        requires
            address % 4 == 0,
            address / 4 + data@.len() <= old(self).storage_words().len(),
        ensures
            final(self).healthy() ==> old(self).healthy() && r is Ok,
            r is Ok ==> final(self).healthy() == old(self).healthy(),
            r is Ok ==> final(self).storage_words() == programmed(
                old(self).storage_words(),
                address as int / 4,
                data@,
            ),
            same_outside(
                old(self).storage_words(),
                final(self).storage_words(),
                address as int / 4,
                address as int / 4 + data@.len(),
            ),
    ;
}

/// Write protection of a flash storage region.
pub trait Locking {
    type Error;

    fn is_locked(&self) -> bool;

    fn lock(&mut self);

    fn unlock(&mut self);
}

/// Where the storage region starts in the TM4C's flash: its second half.
pub const FLASH_STORAGE_ADDR_OFFSET: usize = 0x0002_0000;

/// Access error raised by the flash controller.
pub const FLASH_FCRIS_ARIS: u32 = 0x0000_0001;

/// Pump voltage error raised by the flash controller.
pub const FLASH_FCRIS_VOLTRIS: u32 = 0x0000_0200;

/// Invalid data error raised by the flash controller.
pub const FLASH_FCRIS_INVDRIS: u32 = 0x0000_0400;

/// Erase verify error raised by the flash controller.
pub const FLASH_FCRIS_ERRIS: u32 = 0x0000_0800;

/// Program verify error raised by the flash controller.
pub const FLASH_FCRIS_PROGRIS: u32 = 0x0000_2000;

/// The error reported when the flash controller raised an error.
pub const FLASH_ERROR: u32 = 1;

/// The value of the flash address register that erases the storage page
/// holding byte `address` of the storage region.
pub fn erase_address(address: usize) -> (r: u32)
    requires
        address + FLASH_STORAGE_ADDR_OFFSET <= usize::MAX,
    ensures
        r == ((address + FLASH_STORAGE_ADDR_OFFSET) as u32) & !0x3ffu32,
        r == ((address + 0x2_0000) as u32) & !0x3ffu32,
{
    let flash_address: usize = address + FLASH_STORAGE_ADDR_OFFSET;
    (flash_address as u32) & !0x3ffu32
}

/// The outcome of an erase, from the controller's raw interrupt status
/// `fcris`: an error when an access, voltage or erase verify error is raised.
pub fn erase_outcome(fcris: u32) -> (r: Result<(), u32>)
    ensures
        r == if fcris & (FLASH_FCRIS_ARIS | FLASH_FCRIS_VOLTRIS | FLASH_FCRIS_ERRIS) != 0 {
            Err::<(), u32>(FLASH_ERROR)
        } else {
            Ok::<(), u32>(())
        },
        r is Err <==> fcris & 0x0A01u32 != 0,
{
    assert(0x0000_0001u32 | 0x0000_0200u32 | 0x0000_0800u32 == 0x0A01u32) by (bit_vector);
    if fcris & (FLASH_FCRIS_ARIS | FLASH_FCRIS_VOLTRIS | FLASH_FCRIS_ERRIS) != 0 {
        Err(FLASH_ERROR)
    } else {
        Ok(())
    }
}

/// The outcome of programming, from the controller's raw interrupt status
/// `fcris`: an error when an access, voltage, invalid data or program verify
/// error is raised.
pub fn program_outcome(fcris: u32) -> (r: Result<(), u32>)
    ensures
        r == if fcris & (FLASH_FCRIS_ARIS | FLASH_FCRIS_VOLTRIS | FLASH_FCRIS_INVDRIS
            | FLASH_FCRIS_PROGRIS) != 0 {
            Err::<(), u32>(FLASH_ERROR)
        } else {
            Ok::<(), u32>(())
        },
        r is Err <==> fcris & 0x2601u32 != 0,
{
    assert(0x0000_0001u32 | 0x0000_0200u32 | 0x0000_0400u32 | 0x0000_2000u32 == 0x2601u32)
        by (bit_vector);
    if fcris & (FLASH_FCRIS_ARIS | FLASH_FCRIS_VOLTRIS | FLASH_FCRIS_INVDRIS | FLASH_FCRIS_PROGRIS)
        != 0 {
        Err(FLASH_ERROR)
    } else {
        Ok(())
    }
}

/// The flash address of word `i` of the storage page holding byte `address`
/// of the storage region.
pub fn page_word_address(address: usize, i: usize) -> (r: usize)
    requires
        i < PAGE_WORDS,
        (address & !0x3ffusize) + FLASH_STORAGE_ADDR_OFFSET + 4 * i <= usize::MAX,
    ensures
        r == (address & !0x3ffusize) + FLASH_STORAGE_ADDR_OFFSET + 4 * i,
{
    (address & !0x3ffusize) + FLASH_STORAGE_ADDR_OFFSET + 4 * i
}

/// The value of the flash address register for a write buffer holding the
/// word at flash address `flash_address`: its 128-byte block.
pub fn write_buffer_block(flash_address: usize) -> (r: u32)
    ensures
        r == (flash_address as u32) & !0x7fu32,
{
    (flash_address as u32) & !0x7fu32
}

/// The write buffer slot of the word at flash address `flash_address`.
pub fn write_buffer_slot(flash_address: usize) -> (r: usize)
    ensures
        r == (flash_address & 0x7c) >> 2,
        r < 32,
{
    let slot: usize = (flash_address & 0x7c) >> 2;
    assert(slot < 32) by (bit_vector)
        requires
            slot == (flash_address & 0x7c) >> 2,
    ;
    slot
}

/// Whether programming goes on filling the write buffer: while words are
/// left and the buffer is empty (`fwbval` zero) or the next word is not the
/// first of a 128-byte block.
pub fn keep_filling_buffer(words_left: usize, fwbval: u32, flash_address: usize) -> (r: bool)
    ensures
        r == (words_left != 0 && (fwbval == 0 || flash_address & 0x7c > 0)),
{
    words_left != 0 && (fwbval == 0 || flash_address & 0x7c > 0)
}

/// Progress of programming a run of words through the write buffer: the
/// index of the next word of the data, how many words are left, and the flash
/// address the next word goes to.
#[derive(Clone, Copy, Debug, PartialEq, Eq, Structural)]
pub struct ProgramCursor {
    pub next: usize,
    pub words_left: usize,
    pub flash_address: usize,
}

impl ProgramCursor {
    /// Neither the data index nor the flash address can run past `usize`.
    pub open spec fn fits(self) -> bool {
        &&& self.next + self.words_left <= usize::MAX
        &&& self.flash_address + 4 * self.words_left <= usize::MAX
    }

    /// The cursor after one word has gone into the write buffer.
    pub open spec fn advanced(self) -> ProgramCursor {
        ProgramCursor {
            next: (self.next + 1) as usize,
            words_left: (self.words_left - 1) as usize,
            flash_address: (self.flash_address + 4) as usize,
        }
    }

    /// Whether the next word goes into the write buffer, when the buffer
    /// valid register reads `fwbval`.
    pub open spec fn fills(self, fwbval: u32) -> bool {
        self.words_left != 0 && (fwbval == 0 || self.flash_address & 0x7c > 0)
    }
}

/// The words that a run of fill decisions puts into the write buffer, as
/// pairs of a flash address and an index into the data, when the buffer
/// valid register reads `fwbvals` in turn.
pub open spec fn buffered(c: ProgramCursor, fwbvals: Seq<u32>) -> Seq<(int, int)>
    decreases fwbvals.len(),
{
    if fwbvals.len() == 0 {
        Seq::empty()
    } else if c.fills(fwbvals[0]) {
        seq![(c.flash_address as int, c.next as int)] + buffered(c.advanced(), fwbvals.drop_first())
    } else {
        buffered(c, fwbvals.drop_first())
    }
}

/// The cursor at the start of programming `len` words at byte `address` of
/// the storage region.
pub fn program_start(address: usize, len: usize) -> (r: ProgramCursor)
    requires
        address + FLASH_STORAGE_ADDR_OFFSET + 4 * len <= usize::MAX,
    ensures
        r == (ProgramCursor {
            next: 0,
            words_left: len,
            flash_address: (address + FLASH_STORAGE_ADDR_OFFSET) as usize,
        }),
        r.fits(),
{
    ProgramCursor { next: 0, words_left: len, flash_address: address + FLASH_STORAGE_ADDR_OFFSET }
}

/// One decision of the loop that fills the write buffer, when the buffer
/// valid register reads `fwbval`: either the word of index `next` goes into
/// the buffer slot of its address, and the cursor advances, or filling stops
/// and the cursor stays.
pub fn fill_step(c: ProgramCursor, fwbval: u32) -> (r: (ProgramCursor, Option<(usize, usize)>))
    requires
        c.fits(),
    ensures
        r.0.fits(),
        c.fills(fwbval) ==> r.0 == c.advanced() && r.1 == Some(
            ((c.flash_address & 0x7c) >> 2, c.next),
        ),
        !c.fills(fwbval) ==> r.0 == c && r.1 is None,
{
    if keep_filling_buffer(c.words_left, fwbval, c.flash_address) {
        let slot: usize = write_buffer_slot(c.flash_address);
        let next = ProgramCursor {
            next: c.next + 1,
            words_left: c.words_left - 1,
            flash_address: c.flash_address + 4,
        };
        (next, Some((slot, c.next)))
    } else {
        (c, None)
    }
}

/// Filling the write buffer puts each word of the data in once, in order:
/// the `i`-th word buffered is word `next + i`, at `4 * i` bytes past the
/// cursor's address, and no more words are buffered than are left.
pub proof fn law_fill_in_order(c: ProgramCursor, fwbvals: Seq<u32>)
    requires
        c.fits(),
    ensures
        buffered(c, fwbvals).len() <= c.words_left,
        forall|i: int|
            0 <= i < buffered(c, fwbvals).len() ==> #[trigger] buffered(c, fwbvals)[i] == (
                c.flash_address + 4 * i,
                c.next + i,
            ),
    decreases fwbvals.len(),
{
    if fwbvals.len() > 0 {
        let rest = fwbvals.drop_first();
        if c.fills(fwbvals[0]) {
            law_fill_in_order(c.advanced(), rest);
            let tail = buffered(c.advanced(), rest);
            let all = buffered(c, fwbvals);
            assert(all == seq![(c.flash_address as int, c.next as int)] + tail);
            assert forall|i: int| 0 <= i < all.len() implies #[trigger] all[i] == (
                c.flash_address + 4 * i,
                c.next + i,
            ) by {
                if i > 0 {
                    assert(all[i] == tail[i - 1]);
                }
            }
        } else {
            law_fill_in_order(c, rest);
        }
    }
}

/// Erasing a page and then programming it whole with `data` leaves the page
/// holding `data`, and every other word as it was.
pub proof fn law_erase_then_program(words: Seq<u32>, page: int, data: Seq<u32>)
    requires
        page_in_range(words, page),
        data.len() == PAGE_WORDS,
    ensures
        page_words(programmed(erased(words, page), page_first_word(page), data), page) == data,
        same_outside(
            words,
            programmed(erased(words, page), page_first_word(page), data),
            page_first_word(page),
            page_first_word(page) + PAGE_WORDS as int,
        ),
{
    let after = programmed(erased(words, page), page_first_word(page), data);
    assert forall|i: int| 0 <= i < PAGE_WORDS as int implies #[trigger] page_words(after, page)[i]
        == data[i] by {
        let k = page_first_word(page) + i;
        assert(k / (PAGE_WORDS as int) == page);
        let d = data[i];
        assert(0xFFFF_FFFFu32 & d == d) by (bit_vector);
    }
    assert(page_words(after, page) =~= data);
}

} // verus!
