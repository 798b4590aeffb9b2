//! 32-bit words as four bytes, least significant first.
//!
//! A float's bit pattern and an unsigned integer are written the same way, so
//! one encoding serves every scalar of the uniform block.

use vstd::prelude::*;

verus! {

/// The four bytes of a word, least significant first.
pub open spec fn le_bytes(word: u32) -> Seq<u8> {
    seq![
        (word % 256) as u8,
        ((word / 256) % 256) as u8,
        ((word / 65536) % 256) as u8,
        (word / 16777216) as u8,
    ]
}

/// The word that four bytes spell, least significant first.
pub open spec fn le_value(bytes: Seq<u8>) -> u32
    recommends
        bytes.len() == 4,
{
    (bytes[0] + 256 * bytes[1] + 65536 * bytes[2] + 16777216 * bytes[3]) as u32
}

/// `count` bytes of value zero.
pub open spec fn zeros(count: nat) -> Seq<u8> {
    Seq::new(count, |i: int| 0u8)
}

/// `bytes` with `piece` written over it from position `at` on.
pub open spec fn overwrite(bytes: Seq<u8>, at: int, piece: Seq<u8>) -> Seq<u8>
    recommends
        0 <= at,
        at + piece.len() <= bytes.len(),
{
    Seq::new(
        bytes.len(),
        |i: int|
            if at <= i < at + piece.len() {
                piece[i - at]
            } else {
                bytes[i]
            },
    )
}

/// Reading back what was written gives the word again.
pub proof fn lemma_value_of_bytes(word: u32)
    ensures
        le_bytes(word).len() == 4,
        le_value(le_bytes(word)) == word,
{
}

/// Writing what was read gives the bytes again.
pub proof fn lemma_bytes_of_value(bytes: Seq<u8>)
    requires
        bytes.len() == 4,
    ensures
        le_bytes(le_value(bytes)) == bytes,
{
    let b0 = bytes[0] as int;
    let b1 = bytes[1] as int;
    let b2 = bytes[2] as int;
    let b3 = bytes[3] as int;
    let word = b0 + 256 * b1 + 65536 * b2 + 16777216 * b3;
    assert(word == le_value(bytes));
    assert(word % 256 == b0);
    assert(word / 256 == b1 + 256 * b2 + 65536 * b3);
    assert(word / 65536 == b2 + 256 * b3);
    assert(word / 16777216 == b3);
    assert(le_bytes(le_value(bytes)) =~= bytes);
}

/// A buffer of `count` zero bytes.
pub fn zero_bytes(count: usize) -> (out: Vec<u8>)
    ensures
        out@ == zeros(count as nat),
{
    let mut out: Vec<u8> = Vec::new();
    let mut i: usize = 0;
    while i < count
        invariant
            i <= count,
            out@.len() == i,
            forall|k: int| 0 <= k < i ==> out@[k] == 0u8,
        decreases count - i,
    {
        out.push(0u8);
        i = i + 1;
    }
    assert(out@ =~= zeros(count as nat));
    out
}

/// Writes a word over the four bytes from `at` on.
pub fn write_word(out: &mut Vec<u8>, at: usize, word: u32)
    requires
        at + 4 <= old(out).len(),
    ensures
        final(out)@ == overwrite(old(out)@, at as int, le_bytes(word)),
{
    let b0: u8 = (word % 256) as u8;
    let b1: u8 = ((word / 256) % 256) as u8;
    let b2: u8 = ((word / 65536) % 256) as u8;
    let b3: u8 = (word / 16777216) as u8;
    out.set(at, b0);
    out.set(at + 1, b1);
    out.set(at + 2, b2);
    out.set(at + 3, b3);
    assert(out@ =~= overwrite(old(out)@, at as int, le_bytes(word)));
}

/// Reads the word that the four bytes from `at` on spell.
pub fn read_word(bytes: &[u8], at: usize) -> (word: u32)
    requires
        at + 4 <= bytes.len(),
    ensures
        word == le_value(bytes@.subrange(at as int, at + 4)),
{
    let b0: u32 = bytes[at] as u32;
    let b1: u32 = bytes[at + 1] as u32;
    let b2: u32 = bytes[at + 2] as u32;
    let b3: u32 = bytes[at + 3] as u32;
    b0 + 256 * b1 + 65536 * b2 + 16777216 * b3
}

} // verus!
