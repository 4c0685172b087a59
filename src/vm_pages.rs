use vstd::prelude::*;

use crate::memory_dump::{dump_memory_page_by_offset_and_length, page_byte};
use crate::words::Word256;

verus! {

/// The number of a VM memory page.
#[derive(Clone, Copy, Debug, PartialEq, Eq, Structural)]
pub struct MemoryPage(pub u32);

/// A frame's pages follow its base page: code, stack, heap, auxiliary heap.
/// The code page is the base page itself.
pub fn code_page_candidate_from_base(base: MemoryPage) -> (r: MemoryPage)
    ensures
        r.0 == base.0,
{
    MemoryPage(base.0)
}

/// The stack page: the one after the base.
pub fn stack_page_from_base(base: MemoryPage) -> (r: MemoryPage)
    requires
        base.0 + 1 <= u32::MAX,
    ensures
        r.0 == base.0 + 1,
{
    MemoryPage(base.0 + 1)
}

/// The heap page: two after the base.
pub fn heap_page_from_base(base: MemoryPage) -> (r: MemoryPage)
    requires
        base.0 + 2 <= u32::MAX,
    ensures
        r.0 == base.0 + 2,
{
    MemoryPage(base.0 + 2)
}

/// The auxiliary heap page: three after the base.
pub fn aux_heap_page_from_base(base: MemoryPage) -> (r: MemoryPage)
    requires
        base.0 + 3 <= u32::MAX,
    ensures
        r.0 == base.0 + 3,
{
    MemoryPage(base.0 + 3)
}

/// A pointer to a slice of a memory page: bytes `start + offset .. start + length`.
#[derive(Clone, Copy, Debug, PartialEq, Eq, Structural)]
pub struct FatPointer {
    pub offset: u32,
    pub memory_page: u32,
    pub start: u32,
    pub length: u32,
}

/// The bytes that a fat pointer points to, given the words of its page from
/// word `(start + offset) / 32` on.
pub fn dump_memory_page_using_fat_pointer(page_words: &Vec<Word256>, fat_ptr: FatPointer) -> (dump:
    Vec<u8>)
    requires
        fat_ptr.start + fat_ptr.offset < 0x100_0000,
        fat_ptr.offset <= fat_ptr.length,
        fat_ptr.length - fat_ptr.offset < 0x100_0000,
        (fat_ptr.start + fat_ptr.offset) % 32 + (fat_ptr.length - fat_ptr.offset) <= 32
            * page_words@.len(),
    ensures
        dump@.len() == fat_ptr.length - fat_ptr.offset,
        forall|i: int|
            0 <= i < dump@.len() ==> dump@[i] == #[trigger] page_byte(
                page_words@,
                (fat_ptr.start + fat_ptr.offset) % 32 + i,
            ),
{
    dump_memory_page_by_offset_and_length(
        page_words,
        (fat_ptr.start + fat_ptr.offset) as usize,
        (fat_ptr.length - fat_ptr.offset) as usize,
    )
}

/// Given timestamps sorted in ascending order, counts those at or after
/// `from_timestamp`, by binary search.
pub fn precompile_calls_count_after_timestamp(sorted_timestamps: &[u32], from_timestamp: u32) -> (r:
    usize)
    requires
        forall|i: int, j: int|
            0 <= i <= j < sorted_timestamps@.len() ==> sorted_timestamps@[i]
                <= sorted_timestamps@[j],
    ensures
        r <= sorted_timestamps@.len(),
        forall|i: int|
            0 <= i < sorted_timestamps@.len() - r ==> sorted_timestamps@[i] < from_timestamp,
        forall|i: int|
            sorted_timestamps@.len() - r <= i < sorted_timestamps@.len() ==> sorted_timestamps@[i]
                >= from_timestamp,
{
    let mut lo: usize = 0;
    let mut hi: usize = sorted_timestamps.len();
    while lo < hi
        invariant
            lo <= hi <= sorted_timestamps@.len(),
            forall|i: int| 0 <= i < lo ==> sorted_timestamps@[i] < from_timestamp,
            forall|i: int|
                hi <= i < sorted_timestamps@.len() ==> sorted_timestamps@[i] >= from_timestamp,
            forall|i: int, j: int|
                0 <= i <= j < sorted_timestamps@.len() ==> sorted_timestamps@[i]
                    <= sorted_timestamps@[j],
        decreases hi - lo,
    {
        let mid = lo + (hi - lo) / 2;
        if sorted_timestamps[mid] < from_timestamp {
            lo = mid + 1;
        } else {
            hi = mid;
        }
    }
    sorted_timestamps.len() - lo
}

} // verus!
