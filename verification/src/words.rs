//! Bit and byte arithmetic shared by the decoder: single bits of a 32-bit
//! word, and the word laid out as four bytes, least-significant byte first.

use vstd::prelude::*;

verus! {

/// True iff bit `k` of `w` is set.
pub open spec fn bit(w: u32, k: u32) -> bool {
    (w >> k) & 1 == 1
}

/// The 32-bit word read from four bytes, least-significant byte first.
pub open spec fn word_of_bytes(b0: u8, b1: u8, b2: u8, b3: u8) -> u32 {
    (b0 as u32) | ((b1 as u32) << 8) | ((b2 as u32) << 16) | ((b3 as u32) << 24)
}

/// The 32-bit word starting at byte offset `off` of `s`, least-significant
/// byte first.
pub open spec fn word_at(s: Seq<u8>, off: int) -> u32 {
    word_of_bytes(s[off], s[off + 1], s[off + 2], s[off + 3])
}

/// The four bytes of `w`, least-significant first.
pub open spec fn bytes_of_word(w: u32) -> Seq<u8> {
    seq![
        (w & 0xff) as u8,
        ((w >> 8) & 0xff) as u8,
        ((w >> 16) & 0xff) as u8,
        ((w >> 24) & 0xff) as u8,
    ]
}

/// Law: reading back the four bytes of a word yields the word.
pub proof fn lemma_word_bytes_round_trip(w: u32)
    ensures
        word_of_bytes(
            (w & 0xff) as u8,
            ((w >> 8) & 0xff) as u8,
            ((w >> 16) & 0xff) as u8,
            ((w >> 24) & 0xff) as u8,
        ) == w,
{
    assert(((w & 0xff) as u8 as u32) | (((w >> 8) & 0xff) as u8 as u32) << 8
        | (((w >> 16) & 0xff) as u8 as u32) << 16 | (((w >> 24) & 0xff) as u8 as u32) << 24
        == w) by (bit_vector);
}

/// Bit `k` of `w`, as the flag it encodes.
pub fn get_bit(w: u32, k: u32) -> (r: bool)
    requires
        k < 32,
    ensures
        r == bit(w, k),
{
    (w >> k) & 1 == 1
}

/// The 32-bit word at byte offset `off` of `buf`, least-significant byte
/// first.
pub fn read_word(buf: &[u8], off: usize) -> (r: u32)
    requires
        off + 4 <= buf@.len(),
    ensures
        r == word_at(buf@, off as int),
{
    (buf[off] as u32)
        | ((buf[off + 1] as u32) << 8)
        | ((buf[off + 2] as u32) << 16)
        | ((buf[off + 3] as u32) << 24)
}

/// Append the four bytes of `w` to `out`, least-significant first.
pub fn push_word(out: &mut Vec<u8>, w: u32)
    ensures
        final(out)@ == old(out)@ + bytes_of_word(w),
{
    out.push((w & 0xff) as u8);
    out.push(((w >> 8) & 0xff) as u8);
    out.push(((w >> 16) & 0xff) as u8);
    out.push(((w >> 24) & 0xff) as u8);
    assert(out@ =~= old(out)@ + bytes_of_word(w));
}

} // verus!
