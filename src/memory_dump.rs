use vstd::prelude::*;

use crate::words::{le_byte, le_bytes_of, FixedLengthIterator, IntoFixedLengthByteIterator, Word256};

verus! {

/// Byte `k` of a run of memory words, each laid out most significant byte first.
pub open spec fn page_byte(words: Seq<Word256>, k: int) -> u8 {
    le_byte(words[k / 32].limbs@, 31 - k % 32)
}

/// The words of a memory page that hold the bytes `offset .. offset + length`:
/// the first index, and one past the last.
pub fn page_word_range(offset: usize, length: usize) -> (r: (u32, u32))
    requires
        offset < 0x100_0000,
        length < 0x100_0000,
    ensures
        r.0 == offset / 32,
        r.1 == (offset + length + 31) / 32,
{
    let first_word = offset / 32;
    let end_byte = offset + length;
    let mut last_word = end_byte / 32;
    if end_byte % 32 != 0 {
        last_word = last_word + 1;
    }
    (first_word as u32, last_word as u32)
}

proof fn lemma_word_position(w: int, j: int)
    requires
        0 <= w,
        0 <= j < 32,
    ensures
        (32 * w + j) / 32 == w,
        (32 * w + j) % 32 == j,
{
    assert((32 * w + j) / 32 == w && (32 * w + j) % 32 == j) by (nonlinear_arith)
        requires
            0 <= w,
            0 <= j < 32,
    ;
}

proof fn lemma_rest(before: Seq<u8>, x: u8, after: Seq<u8>)
    requires
        before == seq![x] + after,
    ensures
        after =~= before.subrange(1, before.len() as int),
{
    assert(after =~= (seq![x] + after).subrange(1, before.len() as int));
}

/// The bytes `offset .. offset + length` of a memory page, given the words of
/// the page from word `offset / 32` on.
pub fn dump_memory_page_by_offset_and_length(
    page_words: &Vec<Word256>,
    offset: usize,
    length: usize,
) -> (dump: Vec<u8>)
    requires
        offset < 0x100_0000,
        length < 0x100_0000,
        offset % 32 + length <= 32 * page_words@.len(),
    ensures
        dump@.len() == length,
        forall|i: int| 0 <= i < length ==> dump@[i] == #[trigger] page_byte(page_words@, offset % 32 + i),
{
    let mut dump: Vec<u8> = Vec::with_capacity(length);
    if length == 0 {
        return dump;
    }
    let unalignment = offset % 32;
    let mut remaining = length;
    let mut w: usize = 0;
    while w < page_words.len()
        invariant
            w <= page_words@.len(),
            unalignment == offset % 32,
            unalignment + length <= 32 * page_words@.len(),
            dump@.len() + remaining == length,
            w == 0 ==> dump@.len() == 0,
            remaining > 0 && w > 0 ==> dump@.len() + unalignment == 32 * w,
            forall|i: int|
                0 <= i < dump@.len() ==> dump@[i] == #[trigger] page_byte(page_words@, unalignment + i),
        decreases page_words@.len() - w,
    {
        let word = page_words[w];
        let ghost bytes = le_bytes_of(word).reverse();
        let mut it = word.into_be_iter();
        let mut j: usize = 0;
        assert(bytes.len() == 32);
        assert(it.remaining() =~= bytes.subrange(0, 32));
        if w == 0 {
            while j < unalignment
                invariant
                    j <= unalignment < 32,
                    bytes.len() == 32,
                    it.remaining() == bytes.subrange(j as int, 32),
                decreases unalignment - j,
            {
                let ghost before = it.remaining();
                let skipped = it.next();
                if let Some(x) = skipped {
                    proof {
                        lemma_rest(before, x, it.remaining());
                    }
                }
                assert(it.remaining() =~= bytes.subrange(j + 1, 32));
                j = j + 1;
            }
        }
        while j < 32
            invariant
                j <= 32,
                w < page_words@.len(),
                word == page_words@[w as int],
                bytes.len() == 32,
                bytes == le_bytes_of(word).reverse(),
                it.remaining() == bytes.subrange(j as int, 32),
                dump@.len() + remaining == length,
                remaining > 0 ==> dump@.len() + unalignment == 32 * w + j,
                forall|i: int|
                    0 <= i < dump@.len() ==> dump@[i] == #[trigger] page_byte(
                        page_words@,
                        unalignment + i,
                    ),
            decreases 32 - j,
        {
            let ghost before = it.remaining();
            if let Some(next) = it.next() {
                assert(next == bytes[j as int]) by {
                    assert(before[0] == next);
                }
                proof {
                    lemma_rest(before, next, it.remaining());
                }
                assert(it.remaining() =~= bytes.subrange(j + 1, 32));
                if remaining > 0 {
                    proof {
                        lemma_word_position(w as int, j as int);
                    }
                    dump.push(next);
                    remaining = remaining - 1;
                }
            }
            j = j + 1;
        }
        w = w + 1;
    }
    dump
}

} // verus!
