use queued_job_processor::vm_pages::{
    aux_heap_page_from_base, code_page_candidate_from_base, dump_memory_page_using_fat_pointer,
    heap_page_from_base, precompile_calls_count_after_timestamp, stack_page_from_base, FatPointer,
    MemoryPage,
};
use queued_job_processor::words::Word256;

#[test]
fn pages_follow_the_base() {
    let base = MemoryPage(8);
    assert_eq!(code_page_candidate_from_base(base), MemoryPage(8));
    assert_eq!(stack_page_from_base(base), MemoryPage(9));
    assert_eq!(heap_page_from_base(base), MemoryPage(10));
    assert_eq!(aux_heap_page_from_base(base), MemoryPage(11));
}

#[test]
fn fat_pointer_dump_skips_its_offset() {
    let word = Word256::from_limbs([0x0807060504030201, 0x100f0e0d0c0b0a09, 0x1817161514131211, 0x201f1e1d1c1b1a19]);
    let ptr = FatPointer { offset: 2, memory_page: 5, start: 32, length: 6 };
    // Bytes 34 .. 38 of the page: bytes 2 .. 6 of the second word.
    assert_eq!(dump_memory_page_using_fat_pointer(&vec![word], ptr), vec![30, 29, 28, 27]);
    let empty = FatPointer { offset: 4, memory_page: 5, start: 0, length: 4 };
    assert_eq!(dump_memory_page_using_fat_pointer(&vec![], empty), Vec::<u8>::new());
}

#[test]
fn counts_timestamps_from_a_bound() {
    let ts = [1u32, 3, 3, 7, 9, 12];
    assert_eq!(precompile_calls_count_after_timestamp(&ts, 0), 6);
    assert_eq!(precompile_calls_count_after_timestamp(&ts, 3), 5);
    assert_eq!(precompile_calls_count_after_timestamp(&ts, 4), 3);
    assert_eq!(precompile_calls_count_after_timestamp(&ts, 12), 1);
    assert_eq!(precompile_calls_count_after_timestamp(&ts, 13), 0);
    assert_eq!(precompile_calls_count_after_timestamp(&[], 5), 0);
}
