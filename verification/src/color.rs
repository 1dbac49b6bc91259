//! Packed RGBA colors, the only pixel representation that crosses the output
//! boundary.

use vstd::prelude::*;
use crate::bytes::le_bytes_of_word;
use crate::bytes::word_to_le_bytes;

verus! {

/// A packed 4-byte RGBA color.
#[derive(Clone, Copy, Debug, PartialEq, Eq, PartialOrd, Ord, Hash)]
pub struct Color([u8; 4]);

impl View for Color {
    type V = Seq<u8>;

    closed spec fn view(&self) -> Seq<u8> {
        self.0@
    }
}

impl Color {
    /// Packs a color given as one word, red in the least significant byte.
    pub fn new(hex: u32) -> (r: Self)
        ensures
            r@ == le_bytes_of_word(hex),
    {
        Color(word_to_le_bytes(hex))
    }

    /// Packs a color given as its four channel bytes, red first.
    pub fn from_bytes(bytes: [u8; 4]) -> (r: Self)
        ensures
            r@ == bytes@,
    {
        Color(bytes)
    }

    /// The four channel bytes, red first.
    pub fn to_bytes(&self) -> (r: [u8; 4])
        ensures
            r@ == self@,
    {
        self.0
    }
}

impl Default for Color {
    /// Opaque black, the background for rays that never meet the scene.
    fn default() -> (r: Self)
        ensures
            r@ == seq![0u8, 0u8, 0u8, 255u8],
    {
        Color([0, 0, 0, 255])
    }
}

/// Flattens per-pixel colors, ordered by pixel index, into the byte buffer
/// handed to the image encoder: four bytes per pixel, red first.
pub fn colors_to_bytes(colors: &Vec<Color>) -> (r: Vec<u8>)
    ensures
        r@.len() == 4 * colors@.len(),
        forall|j: int| 0 <= j < r@.len() ==> r@[j] == colors@[j / 4]@[j % 4],
{
    let mut out: Vec<u8> = Vec::new();
    let mut idx: usize = 0;
    while idx < colors.len()
        invariant
            idx <= colors@.len(),
            out@.len() == 4 * idx,
            forall|i: int, k: int|
                0 <= i < idx && 0 <= k < 4 ==> out@[4 * i + k] == colors@[i]@[k],
        decreases colors@.len() - idx,
    {
        let b = colors[idx].to_bytes();
        out.push(b[0]);
        out.push(b[1]);
        out.push(b[2]);
        out.push(b[3]);
        idx += 1;
    }
    proof {
        assert forall|j: int| 0 <= j < out@.len() implies out@[j] == colors@[j / 4]@[j % 4] by {
            vstd::arithmetic::div_mod::lemma_fundamental_div_mod(j, 4);
            assert(out@[4 * (j / 4) + (j % 4)] == colors@[j / 4]@[j % 4]);
        }
    }
    out
}

} // verus!
