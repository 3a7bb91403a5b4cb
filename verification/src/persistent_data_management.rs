//! Interfaces to persistent storage: disks, flash drivers and paging units.
pub mod disk;
pub mod flash;
pub mod page;
