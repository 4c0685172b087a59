use queued_job_processor::memory_dump::{dump_memory_page_by_offset_and_length, page_word_range};
use queued_job_processor::words::{
    bytes_to_be_words, FixedBufferValueIterator, FixedLengthIterator, IntoFixedLengthByteIterator, Word256,
};

fn drain(mut it: FixedBufferValueIterator<u8, 32>) -> Vec<u8> {
    let mut out = vec![];
    while let Some(b) = it.next() {
        out.push(b);
    }
    out
}

fn sample() -> Word256 {
    Word256::from_limbs([0x0807060504030201, 0x100f0e0d0c0b0a09, 0x1817161514131211, 0x201f1e1d1c1b1a19])
}

#[test]
fn little_and_big_endian_bytes() {
    let le = drain(sample().into_le_iter());
    let expected: Vec<u8> = (1..=32).collect();
    assert_eq!(le, expected);
    let be = drain(sample().into_be_iter());
    let expected_be: Vec<u8> = (1..=32).rev().collect();
    assert_eq!(be, expected_be);
    assert_eq!(sample().to_big_endian(), expected_be);
    assert_eq!(sample().to_little_endian(), expected);
}

#[test]
fn small_value_is_at_the_end_in_big_endian() {
    let be = drain(Word256::from_limbs([0x1234, 0, 0, 0]).into_be_iter());
    assert_eq!(&be[30..], &[0x12, 0x34]);
    assert!(be[..30].iter().all(|b| *b == 0));
}

#[test]
fn iterator_stops_after_its_buffer() {
    let mut it: FixedBufferValueIterator<u8, 32> = FixedBufferValueIterator::new(vec![7u8; 32]);
    for _ in 0..32 {
        assert_eq!(it.next(), Some(7));
    }
    assert_eq!(it.next(), None);
    assert_eq!(it.next(), None);
}

#[test]
fn word_ranges() {
    assert_eq!(page_word_range(0, 32), (0, 1));
    assert_eq!(page_word_range(0, 33), (0, 2));
    assert_eq!(page_word_range(40, 10), (1, 2));
    assert_eq!(page_word_range(40, 30), (1, 3));
    assert_eq!(page_word_range(64, 0), (2, 2));
}

#[test]
fn dump_across_words() {
    let words = vec![sample(), Word256::from_limbs([0xff, 0, 0, 0])];
    // Bytes of the page, from the first word on: 32, 31, ..., 1, then 0 x 31, 0xff.
    let dump = dump_memory_page_by_offset_and_length(&words, 64 + 30, 4);
    assert_eq!(dump, vec![2, 1, 0, 0]);
    let dump = dump_memory_page_by_offset_and_length(&words, 0, 64);
    assert_eq!(dump.len(), 64);
    assert_eq!(dump[0], 32);
    assert_eq!(dump[63], 0xff);
    assert_eq!(dump_memory_page_by_offset_and_length(&words, 5, 0), Vec::<u8>::new());
}

#[test]
fn bytes_cut_into_big_endian_words() {
    let mut bytes: Vec<u8> = (1..=32).collect();
    bytes.extend(vec![0u8; 31]);
    bytes.push(0xff);
    let words = bytes_to_be_words(&bytes);
    assert_eq!(words.len(), 2);
    assert_eq!(words[0].limbs, [0x191a1b1c1d1e1f20, 0x1112131415161718, 0x090a0b0c0d0e0f10, 0x0102030405060708]);
    assert_eq!(words[1], Word256::from_limbs([0xff, 0, 0, 0]));
    assert_eq!(words[0].to_big_endian(), (1..=32).collect::<Vec<u8>>());
    assert!(bytes_to_be_words(&vec![]).is_empty());
}
