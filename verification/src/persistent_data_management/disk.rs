//! A word-addressed disk.
use vstd::prelude::*;
use lc3_isa::{Addr, Word};

verus! {

/// Why a disk access failed.
#[derive(Debug, PartialEq, Eq, Structural)]
pub enum DiskError {
    DiskIsNotReal,
    AddressOutOfRange { capacity: Addr, given: Addr },
}

/// A store of words, addressed from zero up to its capacity.
pub trait Disk: Default {
    fn is_real(&self) -> bool;

    fn capacity(&self) -> Addr;

    fn read(&self, addr: Addr) -> Result<Word, DiskError>;

    fn write(&mut self, addr: Addr, data: Word) -> Result<(), DiskError>;
}

} // verus!
