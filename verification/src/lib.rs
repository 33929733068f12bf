//! The lowest layer of a disk-backed page store: page identifiers, the
//! layout of fixed-size pages in a single heap file, and the counter that
//! hands out fresh page identifiers.

pub mod page_id;
pub mod disk;
