//! Little-endian layout of 32-bit words, the wire format shared by the
//! packed colors, the GPU uniform blocks and the readback buffer.

use vstd::prelude::*;

verus! {

broadcast use vstd::std_specs::vec::axiom_spec_len;

/// The four bytes of a word, least significant first.
pub open spec fn le_bytes_of_word(w: u32) -> Seq<u8> {
    seq![
        (w & 0xff) as u8,
        ((w >> 8) & 0xff) as u8,
        ((w >> 16) & 0xff) as u8,
        ((w >> 24) & 0xff) as u8,
    ]
}

/// The word spelled by four bytes, least significant first.
pub open spec fn word_of_le_bytes(b0: u8, b1: u8, b2: u8, b3: u8) -> u32 {
    (b0 as u32) | ((b1 as u32) << 8) | ((b2 as u32) << 16) | ((b3 as u32) << 24)
}

/// Splits a word into its little-endian bytes.
pub fn word_to_le_bytes(w: u32) -> (r: [u8; 4])
    ensures
        r@ == le_bytes_of_word(w),
{
    proof {
        assert((w & 0xff) < 256 && ((w >> 8) & 0xff) < 256 && ((w >> 16) & 0xff) < 256 && ((w
            >> 24) & 0xff) < 256) by (bit_vector);
    }
    [(w & 0xff) as u8, ((w >> 8) & 0xff) as u8, ((w >> 16) & 0xff) as u8, ((w >> 24) & 0xff) as u8]
}

/// Reads a word from its little-endian bytes.
pub fn word_from_le_bytes(b0: u8, b1: u8, b2: u8, b3: u8) -> (r: u32)
    ensures
        r == word_of_le_bytes(b0, b1, b2, b3),
{
    (b0 as u32) | ((b1 as u32) << 8) | ((b2 as u32) << 16) | ((b3 as u32) << 24)
}

/// Flattens a word sequence into bytes, each word least significant first.
pub fn words_to_le_bytes(words: &Vec<u32>) -> (r: Vec<u8>)
    ensures
        r@.len() == 4 * words@.len(),
        forall|j: int| 0 <= j < r@.len() ==> r@[j] == le_bytes_of_word(words@[j / 4])[j % 4],
{
    let mut out: Vec<u8> = Vec::new();
    let mut idx: usize = 0;
    while idx < words.len()
        invariant
            idx <= words@.len(),
            out@.len() == 4 * idx,
            forall|i: int, k: int|
                0 <= i < idx && 0 <= k < 4 ==> out@[4 * i + k] == le_bytes_of_word(words@[i])[k],
        decreases words@.len() - idx,
    {
        let b = word_to_le_bytes(words[idx]);
        out.push(b[0]);
        out.push(b[1]);
        out.push(b[2]);
        out.push(b[3]);
        idx += 1;
    }
    proof {
        assert forall|j: int| 0 <= j < out@.len() implies out@[j] == le_bytes_of_word(
            words@[j / 4],
        )[j % 4] by {
            vstd::arithmetic::div_mod::lemma_fundamental_div_mod(j, 4);
            assert(out@[4 * (j / 4) + (j % 4)] == le_bytes_of_word(words@[j / 4])[j % 4]);
        }
    }
    out
}

/// Reads back a byte buffer as little-endian words; refuses a length that is
/// not a whole number of words.
pub fn words_from_le_bytes(bytes: &Vec<u8>) -> (r: Option<Vec<u32>>)
    ensures
        match r {
            Some(words) => {
                &&& bytes@.len() % 4 == 0
                &&& words@.len() == bytes@.len() / 4
                &&& forall|i: int|
                    0 <= i < words@.len() ==> words@[i] == word_of_le_bytes(
                        bytes@[4 * i],
                        bytes@[4 * i + 1],
                        bytes@[4 * i + 2],
                        bytes@[4 * i + 3],
                    )
            },
            None => bytes@.len() % 4 != 0,
        },
{
    if bytes.len() % 4 != 0 {
        return None;
    }
    let count = bytes.len() / 4;
    let mut out: Vec<u32> = Vec::new();
    let mut idx: usize = 0;
    while idx < count
        invariant
            idx <= count,
            count == bytes@.len() / 4,
            bytes@.len() % 4 == 0,
            4 * count == bytes@.len(),
            out@.len() == idx,
            forall|i: int|
                0 <= i < idx ==> out@[i] == word_of_le_bytes(
                    bytes@[4 * i],
                    bytes@[4 * i + 1],
                    bytes@[4 * i + 2],
                    bytes@[4 * i + 3],
                ),
        decreases count - idx,
    {
        proof {
            assert(bytes.len() == bytes@.len());
        }
        let w = word_from_le_bytes(
            bytes[4 * idx],
            bytes[4 * idx + 1],
            bytes[4 * idx + 2],
            bytes[4 * idx + 3],
        );
        out.push(w);
        idx += 1;
    }
    Some(out)
}

} // verus!
