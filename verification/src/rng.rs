//! Random bytes from the hardware RNG's words.
use vstd::prelude::*;

verus! {

/// Warm-up count programmed before the RNG is enabled.
pub const RNG_WARMUP_COUNT: u32 = 0x0004_0000;

/// Byte `i` of a buffer filled from RNG words: the reads start with one word
/// that is not used, then each word gives four bytes, least significant
/// first.
pub open spec fn rng_byte(words: Seq<u32>, i: int) -> u8 {
    ((words[1 + i / 4] >> ((8 * (i % 4)) as u32)) & 0xFF) as u8
}

/// Number of words read to fill `len` bytes.
pub open spec fn rng_words_needed(len: nat) -> nat {
    1 + (len + 3) / 4
}

/// Number of RNG words to read to fill `len` bytes (the first is discarded).
pub fn words_needed(len: usize) -> (r: usize)
    requires
        len + 3 <= usize::MAX,
    ensures
        r == rng_words_needed(len as nat),
{
    1 + (len + 3) / 4
}

/// Fills `len` bytes from the words read from the RNG.
pub fn fill_from_words(words: &Vec<u32>, len: usize) -> (r: Vec<u8>)
    requires
        words@.len() >= rng_words_needed(len as nat),
    ensures
        r@.len() == len,
        forall|i: int| 0 <= i < len ==> #[trigger] r@[i] == rng_byte(words@, i),
{
    let mut out: Vec<u8> = Vec::new();
    let mut word: u32 = words[0];
    let mut i: usize = 0;
    while i < len
        invariant
            i <= len,
            words@.len() >= rng_words_needed(len as nat),
            out@.len() == i,
            forall|k: int| 0 <= k < i ==> #[trigger] out@[k] == rng_byte(words@, k),
            i % 4 != 0 ==> word == words@[1 + (i - 1) / 4],
        decreases len - i,
    {
        let byte_index = i % 4;
        if byte_index == 0 {
            word = words[1 + i / 4];
        }
        let b = (0xFF & (word >> ((byte_index * 8) as u32))) as u8;
        assert(0xFFu32 & (word >> ((byte_index * 8) as u32)) == (word >> ((byte_index * 8) as u32)) & 0xFF) by (bit_vector);
        out.push(b);
        i = i + 1;
    }
    out
}

} // verus!
