//! The heap file's layout and the page counter of its manager.
//!
//! The heap file is a flat run of fixed-size slots with no header: slot `i`
//! holds the bytes from `PAGE_SIZE * i` up to `PAGE_SIZE * (i + 1)`. The
//! code that owns the file handle asks this module where a page lies and
//! which identifier comes next; it does the seeking, reading and writing
//! itself.

use crate::page_id::PageId;
use vstd::prelude::*;

verus! {

/// The size of a page in bytes.
pub const PAGE_SIZE: usize = 4096;

/// The number of whole pages in a file of `file_size` bytes. Bytes after
/// the last whole page are not counted.
pub open spec fn spec_page_count(file_size: u64) -> u64 {
    (file_size / 4096) as u64
}

/// The position in the heap file of the first byte of page `page_id`.
pub open spec fn spec_page_offset(page_id: PageId) -> int {
    4096 * page_id.0
}

/// Whether the position of page `page_id` fits in a file offset.
pub open spec fn spec_addressable(page_id: PageId) -> bool {
    spec_page_offset(page_id) <= u64::MAX
}

/// Whether the position of page `page_id` fits in a file offset. The
/// reserved identifier never does.
#[verifier::when_used_as_spec(spec_addressable)]
pub fn addressable(page_id: PageId) -> (r: bool)
    ensures
        r == spec_addressable(page_id),
        r ==> page_id != PageId::invalid(),
{
    let page: u64 = PAGE_SIZE as u64;
    let last: u64 = u64::MAX / page;
    assert(last == u64::MAX / 4096) by (nonlinear_arith)
        requires
            last == u64::MAX / page,
            page == 4096,
    ;
    page_id.0 <= last
}

/// The position in the heap file of the first byte of page `page_id`: the
/// place to seek to before reading or writing that page.
pub fn page_offset(page_id: PageId) -> (offset: u64)
    requires
        spec_addressable(page_id),
    ensures
        offset == spec_page_offset(page_id),
        offset % 4096 == 0,
{
    (PAGE_SIZE as u64) * page_id.to_u64()
}

/// The slots of two different pages share no byte: the slot of the page
/// with the smaller identifier ends where, or before, the other begins.
pub proof fn lemma_page_slots_are_disjoint(first: PageId, second: PageId)
    requires
        first.0 < second.0,
    ensures
        spec_page_offset(first) + PAGE_SIZE <= spec_page_offset(second),
{
}

/// Bytes after the last whole page do not count as a page: a file of `k`
/// whole pages and `rest` more bytes, fewer than a page, has `k` pages.
pub proof fn lemma_partial_page_is_not_counted(k: u64, rest: u64)
    requires
        rest < PAGE_SIZE,
        4096 * k + rest <= u64::MAX,
    ensures
        spec_page_count((4096 * k + rest) as u64) == k,
{
}

/// The page counter of one heap file.
///
/// The counter starts at the number of whole pages that the file held when
/// the manager was made, and goes up by one with each identifier handed
/// out. It says nothing of what was written since.
pub struct DiskManager {
    next_page_id: u64,
}

impl DiskManager {
    /// The identifier that the next allocation hands out.
    pub closed spec fn spec_next_page_id(&self) -> u64 {
        self.next_page_id
    }

    /// What one allocation does: it hands out the identifier that was next,
    /// and the one after it is next.
    pub open spec fn allocates(&self, page_id: PageId, after: DiskManager) -> bool {
        &&& page_id.0 == self.spec_next_page_id()
        &&& after.spec_next_page_id() == self.spec_next_page_id() + 1
    }

    /// A manager for a heap file that is `heap_file_size` bytes long.
    pub fn new(heap_file_size: u64) -> (r: DiskManager)
        ensures
            r.spec_next_page_id() == spec_page_count(heap_file_size),
            spec_page_offset(PageId(r.spec_next_page_id())) <= heap_file_size,
    {
        let page: u64 = PAGE_SIZE as u64;
        let next_page_id: u64 = heap_file_size / page;
        assert(next_page_id == heap_file_size / 4096) by (nonlinear_arith)
            requires
                next_page_id == heap_file_size / page,
                page == 4096,
        ;
        DiskManager { next_page_id }
    }

    /// The identifier that the next allocation hands out.
    #[verifier::when_used_as_spec(spec_next_page_id)]
    pub fn next_page_id(&self) -> (r: u64)
        ensures
            r == self.spec_next_page_id(),
    {
        self.next_page_id
    }

    /// Hands out a fresh page identifier. Nothing is written: the page
    /// exists in the file only once its data is.
    pub fn allocate_page(&mut self) -> (page_id: PageId)
        requires
            old(self).spec_next_page_id() < u64::MAX,
        ensures
            old(self).allocates(page_id, *final(self)),
            page_id.0 < PageId::INVALID_PAGE_ID,
            page_id.spec_valid() == Some(page_id),
    {
        let page_id: u64 = self.next_page_id;
        self.next_page_id = self.next_page_id + 1;
        PageId(page_id)
    }
}

/// Of two allocations in a row the second hands out the identifier that
/// follows the first, so no identifier is handed out twice.
pub proof fn lemma_allocations_are_consecutive(
    start: DiskManager,
    first: PageId,
    between: DiskManager,
    second: PageId,
    end: DiskManager,
)
    requires
        start.allocates(first, between),
        between.allocates(second, end),
    ensures
        second.0 == first.0 + 1,
        first != second,
        end.spec_next_page_id() == start.spec_next_page_id() + 2,
{
}

} // verus!
