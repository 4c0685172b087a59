use vstd::prelude::*;

verus! {

/// A source that hands out exactly `N` items, one at a time.
pub trait FixedLengthIterator<I, const N: usize>: Sized {
    /// The items that are still to come, in order.
    spec fn remaining(&self) -> Seq<I>;

    fn next(&mut self) -> (r: Option<I>)
        ensures
            match r {
                Some(x) => old(self).remaining() == seq![x] + final(self).remaining(),
                None => old(self).remaining().len() == 0 && final(self).remaining().len() == 0,
            },
    ;
}

/// Turns a value into its `N` bytes, least or most significant first.
pub trait IntoFixedLengthByteIterator<const N: usize>: Sized {
    type IntoIter: FixedLengthIterator<u8, N>;

    /// The bytes of the value, least significant first.
    spec fn le_bytes(&self) -> Seq<u8>;

    fn into_le_iter(self) -> (r: Self::IntoIter)
        ensures
            r.remaining() == self.le_bytes(),
    ;

    fn into_be_iter(self) -> (r: Self::IntoIter)
        ensures
            r.remaining() == self.le_bytes().reverse(),
    ;
}

/// Hands out the items of a buffer of `N` items, front to back.
pub struct FixedBufferValueIterator<T, const N: usize> {
    buffer: Vec<T>,
    pos: usize,
}

impl<T: Copy, const N: usize> FixedBufferValueIterator<T, N> {
    /// An iterator over the whole buffer.
    pub fn new(buffer: Vec<T>) -> (r: Self)
        requires
            buffer@.len() == N,
        ensures
            r.remaining() == buffer@,
    {
        FixedBufferValueIterator { buffer, pos: 0 }
    }
}

impl<T: Copy, const N: usize> FixedLengthIterator<T, N> for FixedBufferValueIterator<T, N> {
    closed spec fn remaining(&self) -> Seq<T> {
        if self.pos <= self.buffer@.len() {
            self.buffer@.subrange(self.pos as int, self.buffer@.len() as int)
        } else {
            Seq::empty()
        }
    }

    fn next(&mut self) -> (r: Option<T>) {
        if self.pos < self.buffer.len() {
            let x = self.buffer[self.pos];
            self.pos = self.pos + 1;
            assert(old(self).remaining() =~= seq![x] + self.remaining());
            Some(x)
        } else {
            None
        }
    }
}

/// A 256-bit unsigned integer as four 64-bit limbs, least significant first.
#[derive(Clone, Copy, Debug, PartialEq, Eq)]
pub struct Word256 {
    pub limbs: [u64; 4],
}

/// Byte `j` of a 256-bit word, counted from the least significant one.
pub open spec fn le_byte(limbs: Seq<u64>, j: int) -> u8 {
    ((limbs[j / 8] >> ((8 * (j % 8)) as u64)) & 0xffu64) as u8
}

impl Word256 {
    /// The word with these limbs, least significant first.
    pub fn from_limbs(limbs: [u64; 4]) -> (r: Word256)
        ensures
            r.limbs@ == limbs@,
    {
        Word256 { limbs }
    }

    /// The 32 bytes of the word, least significant first.
    pub fn to_little_endian(&self) -> (r: Vec<u8>)
        ensures
            r@.len() == 32,
            forall|j: int| 0 <= j < 32 ==> r@[j] == #[trigger] le_byte(self.limbs@, j),
    {
        let mut out: Vec<u8> = Vec::with_capacity(32);
        let mut j: usize = 0;
        while j < 32
            invariant
                j <= 32,
                out@.len() == j,
                forall|i: int| 0 <= i < j ==> out@[i] == #[trigger] le_byte(self.limbs@, i),
            decreases 32 - j,
        {
            let b = ((self.limbs[j / 8] >> ((8 * (j % 8)) as u64)) & 0xffu64) as u8;
            out.push(b);
            j = j + 1;
        }
        out
    }

    /// The 32 bytes of the word, most significant first.
    pub fn to_big_endian(&self) -> (r: Vec<u8>)
        ensures
            r@.len() == 32,
            forall|j: int| 0 <= j < 32 ==> r@[j] == #[trigger] le_byte(self.limbs@, 31 - j),
    {
        let mut out: Vec<u8> = Vec::with_capacity(32);
        let mut j: usize = 0;
        while j < 32
            invariant
                j <= 32,
                out@.len() == j,
                forall|i: int| 0 <= i < j ==> out@[i] == #[trigger] le_byte(self.limbs@, 31 - i),
            decreases 32 - j,
        {
            let k: usize = 31 - j;
            let b = ((self.limbs[k / 8] >> ((8 * (k % 8)) as u64)) & 0xffu64) as u8;
            out.push(b);
            j = j + 1;
        }
        out
    }
}

/// Byte `j` of a word, counted from the most significant one.
pub open spec fn be_byte(w: Word256, j: int) -> u8 {
    le_byte(w.limbs@, 31 - j)
}

/// The bytes of a word, least significant first.
pub open spec fn le_bytes_of(w: Word256) -> Seq<u8> {
    Seq::new(32, |j: int| le_byte(w.limbs@, j))
}

impl IntoFixedLengthByteIterator<32> for Word256 {
    type IntoIter = FixedBufferValueIterator<u8, 32>;

    open spec fn le_bytes(&self) -> Seq<u8> {
        le_bytes_of(*self)
    }

    fn into_le_iter(self) -> (r: FixedBufferValueIterator<u8, 32>) {
        let buffer = self.to_little_endian();
        assert(buffer@ =~= le_bytes_of(self));
        FixedBufferValueIterator::new(buffer)
    }

    fn into_be_iter(self) -> (r: FixedBufferValueIterator<u8, 32>) {
        let buffer = self.to_big_endian();
        assert(buffer@ =~= le_bytes_of(self).reverse());
        FixedBufferValueIterator::new(buffer)
    }
}

/// Reads the eight bytes at `at` as a 64-bit integer, most significant first.
fn be_u64_at(bytes: &[u8], at: usize) -> (r: u64)
    requires
        at + 8 <= bytes@.len(),
    ensures
        forall|i: int|
            0 <= i < 8 ==> ((r >> ((8 * (7 - i)) as u64)) & 0xffu64) as u8 == #[trigger] bytes@[at + i],
{
    let b0 = bytes[at] as u64;
    let b1 = bytes[at + 1] as u64;
    let b2 = bytes[at + 2] as u64;
    let b3 = bytes[at + 3] as u64;
    let b4 = bytes[at + 4] as u64;
    let b5 = bytes[at + 5] as u64;
    let b6 = bytes[at + 6] as u64;
    let b7 = bytes[at + 7] as u64;
    let r = (b0 << 56u64) | (b1 << 48u64) | (b2 << 40u64) | (b3 << 32u64) | (b4 << 24u64) | (b5
        << 16u64) | (b6 << 8u64) | b7;
    assert(((r >> 56u64) & 0xffu64) == b0 && ((r >> 48u64) & 0xffu64) == b1 && ((r >> 40u64)
        & 0xffu64) == b2 && ((r >> 32u64) & 0xffu64) == b3 && ((r >> 24u64) & 0xffu64) == b4 && ((r
        >> 16u64) & 0xffu64) == b5 && ((r >> 8u64) & 0xffu64) == b6 && ((r >> 0u64) & 0xffu64)
        == b7) by (bit_vector)
        requires
            b0 < 256,
            b1 < 256,
            b2 < 256,
            b3 < 256,
            b4 < 256,
            b5 < 256,
            b6 < 256,
            b7 < 256,
            r == (b0 << 56u64) | (b1 << 48u64) | (b2 << 40u64) | (b3 << 32u64) | (b4 << 24u64) | (
            b5 << 16u64) | (b6 << 8u64) | b7,
    ;
    r
}

/// The word whose 32 bytes, most significant first, start at `at`.
pub fn word_from_big_endian_at(bytes: &[u8], at: usize) -> (r: Word256)
    requires
        at + 32 <= bytes@.len(),
    ensures
        forall|j: int| 0 <= j < 32 ==> #[trigger] be_byte(r, j) == bytes@[at + j],
{
    let len = bytes.len();
    assert(at + 32 <= len);
    let l3 = be_u64_at(bytes, at);
    let l2 = be_u64_at(bytes, at + 8);
    let l1 = be_u64_at(bytes, at + 16);
    let l0 = be_u64_at(bytes, at + 24);
    let r = Word256 { limbs: [l0, l1, l2, l3] };
    assert forall|j: int| 0 <= j < 32 implies #[trigger] be_byte(r, j) == bytes@[at + j] by {
        let m = j / 8;
        let i = j % 8;
        assert((31 - j) / 8 == 3 - m && (31 - j) % 8 == 7 - i);
        assert(at + j == (at + 8 * m) + i);
        if m == 0 {
            assert(bytes@[at + 0 + i] == bytes@[at + j]);
        } else if m == 1 {
            assert(bytes@[(at + 8) + i] == bytes@[at + j]);
        } else if m == 2 {
            assert(bytes@[(at + 16) + i] == bytes@[at + j]);
        } else {
            assert(bytes@[(at + 24) + i] == bytes@[at + j]);
        }
    }
    r
}

/// Cuts bytes into 32-byte words, each read most significant byte first.
pub fn bytes_to_be_words(bytes: &Vec<u8>) -> (r: Vec<Word256>)
    requires
        bytes@.len() % 32 == 0,
    ensures
        r@.len() == bytes@.len() / 32,
        forall|k: int, j: int|
            0 <= k < r@.len() && 0 <= j < 32 ==> #[trigger] be_byte(r@[k], j) == bytes@[32 * k
                + j],
{
    let n = bytes.len() / 32;
    let mut words: Vec<Word256> = Vec::with_capacity(n);
    let mut k: usize = 0;
    while k < n
        invariant
            n == bytes@.len() / 32,
            bytes@.len() <= usize::MAX,
            bytes@.len() % 32 == 0,
            k <= n,
            words@.len() == k,
            forall|q: int, j: int|
                0 <= q < k && 0 <= j < 32 ==> #[trigger] be_byte(words@[q], j) == bytes@[32 * q
                    + j],
        decreases n - k,
    {
        assert(32 * k + 32 <= bytes@.len()) by (nonlinear_arith)
            requires
                k < n,
                n == bytes@.len() / 32,
                bytes@.len() % 32 == 0,
        ;
        let w = word_from_big_endian_at(bytes.as_slice(), 32 * k);
        words.push(w);
        k = k + 1;
    }
    words
}

} // verus!
