//! Pixel-format transcoding: channel reordering on byte buffers and the
//! packing of byte quadruples into 32-bit words.

use vstd::prelude::*;

verus! {

/// One 32bpp pixel, a byte per channel.
#[derive(Debug, Clone, Copy, PartialEq, Eq, Structural)]
pub struct Pixel {
    pub r: u8,
    pub g: u8,
    pub b: u8,
    pub a: u8,
}

impl Pixel {
    /// Exchanges the red and the blue channel.
    pub fn convert_to_bgra(&mut self)
        ensures
            final(self).r == old(self).b,
            final(self).b == old(self).r,
            final(self).g == old(self).g,
            final(self).a == old(self).a,
    {
        let red = self.r;
        self.r = self.b;
        self.b = red;
    }
}

/// The number of bytes of `bytes` that belong to whole pixels: the length
/// rounded down to a multiple of four.
pub open spec fn whole_pixel_bytes(bytes: Seq<u8>) -> nat {
    (bytes.len() / 4) * 4
}

/// `bytes` with the first and third byte of every whole pixel exchanged.
/// Bytes after the last whole pixel stay as they are.
pub open spec fn swap_red_blue(bytes: Seq<u8>) -> Seq<u8> {
    Seq::new(
        bytes.len(),
        |i: int|
            if i >= whole_pixel_bytes(bytes) {
                bytes[i]
            } else if i % 4 == 0 {
                bytes[i + 2]
            } else if i % 4 == 2 {
                bytes[i - 2]
            } else {
                bytes[i]
            },
    )
}

/// Exchanging red and blue twice gives the buffer back.
pub proof fn lemma_swap_red_blue_involution(bytes: Seq<u8>)
    ensures
        swap_red_blue(swap_red_blue(bytes)) == bytes,
{
}

/// What exchanging red and blue does to one pixel: the pixel `i` of the
/// result has the bytes of the pixel `i` of `bytes` with the first and the
/// third exchanged.
pub proof fn lemma_swap_red_blue_pixel(bytes: Seq<u8>, i: int)
    requires
        0 <= i < bytes.len() / 4,
    ensures
        swap_red_blue(bytes)[4 * i] == bytes[4 * i + 2],
        swap_red_blue(bytes)[4 * i + 1] == bytes[4 * i + 1],
        swap_red_blue(bytes)[4 * i + 2] == bytes[4 * i],
        swap_red_blue(bytes)[4 * i + 3] == bytes[4 * i + 3],
{
}

/// Reorders a buffer of RGBA pixels to BGRA in place (or back: the
/// operation is its own inverse).
pub fn rgba_to_bgra(rgba: &mut Vec<u8>)
    ensures
        final(rgba)@ == swap_red_blue(old(rgba)@),
{
    let len: usize = rgba.len();
    let mut i: usize = 0;
    while len - i >= 4
        invariant
            i <= len,
            i % 4 == 0,
            rgba@.len() == len,
            old(rgba)@.len() == len,
            forall|j: int| 0 <= j < i ==> rgba@[j] == swap_red_blue(old(rgba)@)[j],
            forall|j: int| i <= j < len ==> rgba@[j] == old(rgba)@[j],
        decreases len - i,
    {
        let red: u8 = rgba[i];
        let blue: u8 = rgba[i + 2];
        rgba.set(i, blue);
        rgba.set(i + 2, red);
        i = i + 4;
    }
}

/// The 32-bit word with `a` in the high byte, then `r`, `g`, and `b` in the
/// low byte.
pub open spec fn argb_word(a: u8, r: u8, g: u8, b: u8) -> u32 {
    (a * 0x100_0000 + r * 0x1_0000 + g * 0x100 + b) as u32
}

/// One ARGB word per whole BGRA pixel of `bgra`.
pub open spec fn argb_words(bgra: Seq<u8>) -> Seq<u32> {
    Seq::new(
        bgra.len() / 4,
        |i: int| argb_word(bgra[4 * i + 3], bgra[4 * i + 2], bgra[4 * i + 1], bgra[4 * i]),
    )
}

/// The ARGB words of an RGBA buffer that has been reordered to BGRA: the
/// word of a pixel has its alpha in the high byte, then its red and its
/// green, and its blue in the low byte.
pub proof fn lemma_argb_words_of_rgba(rgba: Seq<u8>, i: int)
    requires
        0 <= i < rgba.len() / 4,
    ensures
        argb_words(swap_red_blue(rgba)).len() == rgba.len() / 4,
        argb_words(swap_red_blue(rgba))[i] == argb_word(
            rgba[4 * i + 3],
            rgba[4 * i],
            rgba[4 * i + 1],
            rgba[4 * i + 2],
        ),
{
    lemma_swap_red_blue_pixel(rgba, i);
}

/// Shifting the four bytes into place and or-ing them gives the ARGB word.
proof fn lemma_argb_word_bits(a: u8, r: u8, g: u8, b: u8)
    ensures
        (b as u32) | ((g as u32) << 8) | ((r as u32) << 16) | ((a as u32) << 24) == argb_word(
            a,
            r,
            g,
            b,
        ),
{
    assert((b as u32) | ((g as u32) << 8) | ((r as u32) << 16) | ((a as u32) << 24) == (a
        * 0x100_0000 + r * 0x1_0000 + g * 0x100 + b) as u32) by (bit_vector);
}

/// Packs a buffer of BGRA pixels into one ARGB word per pixel. Bytes after
/// the last whole pixel are ignored.
pub fn pack_argb(bgra: &[u8]) -> (words: Vec<u32>)
    ensures
        words@ == argb_words(bgra@),
{
    let count: usize = bgra.len() / 4;
    let mut words: Vec<u32> = Vec::with_capacity(count);
    let mut i: usize = 0;
    while i < count
        invariant
            count == bgra@.len() / 4,
            bgra@.len() <= usize::MAX,
            i <= count,
            words@.len() == i,
            forall|j: int| 0 <= j < i ==> words@[j] == argb_words(bgra@)[j],
        decreases count - i,
    {
        let b: u8 = bgra[4 * i];
        let g: u8 = bgra[4 * i + 1];
        let r: u8 = bgra[4 * i + 2];
        let a: u8 = bgra[4 * i + 3];
        proof {
            lemma_argb_word_bits(a, r, g, b);
        }
        words.push((b as u32) | ((g as u32) << 8) | ((r as u32) << 16) | ((a as u32) << 24));
        i = i + 1;
    }
    words
}

} // verus!
