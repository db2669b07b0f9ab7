//! Thirty-two bytes as two 128-bit words, most significant byte first, and
//! back.

use vstd::prelude::*;

verus! {

/// The byte of `w` that starts `shift` bits above its least significant bit.
pub open spec fn byte_at(w: u128, shift: u128) -> u8 {
    ((w >> shift) & 0xff) as u8
}

/// The word that sixteen bytes spell, most significant byte first.
pub open spec fn join16(
    b0: u8,
    b1: u8,
    b2: u8,
    b3: u8,
    b4: u8,
    b5: u8,
    b6: u8,
    b7: u8,
    b8: u8,
    b9: u8,
    b10: u8,
    b11: u8,
    b12: u8,
    b13: u8,
    b14: u8,
    b15: u8,
) -> u128 {
    (b0 as u128) << 120 | (b1 as u128) << 112 | (b2 as u128) << 104 | (b3 as u128) << 96
    | (b4 as u128) << 88 | (b5 as u128) << 80 | (b6 as u128) << 72 | (b7 as u128) << 64
    | (b8 as u128) << 56 | (b9 as u128) << 48 | (b10 as u128) << 40 | (b11 as u128) << 32
    | (b12 as u128) << 24 | (b13 as u128) << 16 | (b14 as u128) << 8 | (b15 as u128) << 0
}

/// The word that a sequence of sixteen bytes spells.
pub open spec fn word_of(s: Seq<u8>) -> u128
    recommends
        s.len() == 16,
{
    join16(
        s[0],
        s[1],
        s[2],
        s[3],
        s[4],
        s[5],
        s[6],
        s[7],
        s[8],
        s[9],
        s[10],
        s[11],
        s[12],
        s[13],
        s[14],
        s[15],
    )
}

/// The sixteen bytes of a word, most significant byte first.
pub open spec fn word_bytes(w: u128) -> Seq<u8> {
    seq![
        byte_at(w, 120),
        byte_at(w, 112),
        byte_at(w, 104),
        byte_at(w, 96),
        byte_at(w, 88),
        byte_at(w, 80),
        byte_at(w, 72),
        byte_at(w, 64),
        byte_at(w, 56),
        byte_at(w, 48),
        byte_at(w, 40),
        byte_at(w, 32),
        byte_at(w, 24),
        byte_at(w, 16),
        byte_at(w, 8),
        byte_at(w, 0),
    ]
}

/// Splitting a word into its bytes and joining them gives the word back.
pub proof fn lemma_word_of_bytes(w: u128)
    ensures
        word_bytes(w).len() == 16,
        word_of(word_bytes(w)) == w,
{
    assert(w ==
        ((((w >> 120) & 0xff) as u8) as u128) << 120 | ((((w >> 112) & 0xff) as u8) as u128) << 112
        | ((((w >> 104) & 0xff) as u8) as u128) << 104 | ((((w >> 96) & 0xff) as u8) as u128) << 96
        | ((((w >> 88) & 0xff) as u8) as u128) << 88 | ((((w >> 80) & 0xff) as u8) as u128) << 80
        | ((((w >> 72) & 0xff) as u8) as u128) << 72 | ((((w >> 64) & 0xff) as u8) as u128) << 64
        | ((((w >> 56) & 0xff) as u8) as u128) << 56 | ((((w >> 48) & 0xff) as u8) as u128) << 48
        | ((((w >> 40) & 0xff) as u8) as u128) << 40 | ((((w >> 32) & 0xff) as u8) as u128) << 32
        | ((((w >> 24) & 0xff) as u8) as u128) << 24 | ((((w >> 16) & 0xff) as u8) as u128) << 16
        | ((((w >> 8) & 0xff) as u8) as u128) << 8 | ((((w >> 0) & 0xff) as u8) as u128) << 0) by (bit_vector);
}

/// Each byte of a joined word is the byte that went in at its place.
pub proof fn lemma_byte_of_joined(
    b0: u8,
    b1: u8,
    b2: u8,
    b3: u8,
    b4: u8,
    b5: u8,
    b6: u8,
    b7: u8,
    b8: u8,
    b9: u8,
    b10: u8,
    b11: u8,
    b12: u8,
    b13: u8,
    b14: u8,
    b15: u8,
)
    ensures
        byte_at(join16(b0, b1, b2, b3, b4, b5, b6, b7, b8, b9, b10, b11, b12, b13, b14, b15), 120) == b0,
        byte_at(join16(b0, b1, b2, b3, b4, b5, b6, b7, b8, b9, b10, b11, b12, b13, b14, b15), 112) == b1,
        byte_at(join16(b0, b1, b2, b3, b4, b5, b6, b7, b8, b9, b10, b11, b12, b13, b14, b15), 104) == b2,
        byte_at(join16(b0, b1, b2, b3, b4, b5, b6, b7, b8, b9, b10, b11, b12, b13, b14, b15), 96) == b3,
        byte_at(join16(b0, b1, b2, b3, b4, b5, b6, b7, b8, b9, b10, b11, b12, b13, b14, b15), 88) == b4,
        byte_at(join16(b0, b1, b2, b3, b4, b5, b6, b7, b8, b9, b10, b11, b12, b13, b14, b15), 80) == b5,
        byte_at(join16(b0, b1, b2, b3, b4, b5, b6, b7, b8, b9, b10, b11, b12, b13, b14, b15), 72) == b6,
        byte_at(join16(b0, b1, b2, b3, b4, b5, b6, b7, b8, b9, b10, b11, b12, b13, b14, b15), 64) == b7,
        byte_at(join16(b0, b1, b2, b3, b4, b5, b6, b7, b8, b9, b10, b11, b12, b13, b14, b15), 56) == b8,
        byte_at(join16(b0, b1, b2, b3, b4, b5, b6, b7, b8, b9, b10, b11, b12, b13, b14, b15), 48) == b9,
        byte_at(join16(b0, b1, b2, b3, b4, b5, b6, b7, b8, b9, b10, b11, b12, b13, b14, b15), 40) == b10,
        byte_at(join16(b0, b1, b2, b3, b4, b5, b6, b7, b8, b9, b10, b11, b12, b13, b14, b15), 32) == b11,
        byte_at(join16(b0, b1, b2, b3, b4, b5, b6, b7, b8, b9, b10, b11, b12, b13, b14, b15), 24) == b12,
        byte_at(join16(b0, b1, b2, b3, b4, b5, b6, b7, b8, b9, b10, b11, b12, b13, b14, b15), 16) == b13,
        byte_at(join16(b0, b1, b2, b3, b4, b5, b6, b7, b8, b9, b10, b11, b12, b13, b14, b15), 8) == b14,
        byte_at(join16(b0, b1, b2, b3, b4, b5, b6, b7, b8, b9, b10, b11, b12, b13, b14, b15), 0) == b15,
{
    let w = join16(b0, b1, b2, b3, b4, b5, b6, b7, b8, b9, b10, b11, b12, b13, b14, b15);
    assert((((w >> 120) & 0xff) as u8) == b0) by (bit_vector)
        requires
            w ==
                (b0 as u128) << 120 | (b1 as u128) << 112 | (b2 as u128) << 104 | (b3 as u128) << 96
                | (b4 as u128) << 88 | (b5 as u128) << 80 | (b6 as u128) << 72 | (b7 as u128) << 64
                | (b8 as u128) << 56 | (b9 as u128) << 48 | (b10 as u128) << 40 | (b11 as u128) << 32
                | (b12 as u128) << 24 | (b13 as u128) << 16 | (b14 as u128) << 8 | (b15 as u128) << 0,
    ;
    assert((((w >> 112) & 0xff) as u8) == b1) by (bit_vector)
        requires
            w ==
                (b0 as u128) << 120 | (b1 as u128) << 112 | (b2 as u128) << 104 | (b3 as u128) << 96
                | (b4 as u128) << 88 | (b5 as u128) << 80 | (b6 as u128) << 72 | (b7 as u128) << 64
                | (b8 as u128) << 56 | (b9 as u128) << 48 | (b10 as u128) << 40 | (b11 as u128) << 32
                | (b12 as u128) << 24 | (b13 as u128) << 16 | (b14 as u128) << 8 | (b15 as u128) << 0,
    ;
    assert((((w >> 104) & 0xff) as u8) == b2) by (bit_vector)
        requires
            w ==
                (b0 as u128) << 120 | (b1 as u128) << 112 | (b2 as u128) << 104 | (b3 as u128) << 96
                | (b4 as u128) << 88 | (b5 as u128) << 80 | (b6 as u128) << 72 | (b7 as u128) << 64
                | (b8 as u128) << 56 | (b9 as u128) << 48 | (b10 as u128) << 40 | (b11 as u128) << 32
                | (b12 as u128) << 24 | (b13 as u128) << 16 | (b14 as u128) << 8 | (b15 as u128) << 0,
    ;
    assert((((w >> 96) & 0xff) as u8) == b3) by (bit_vector)
        requires
            w ==
                (b0 as u128) << 120 | (b1 as u128) << 112 | (b2 as u128) << 104 | (b3 as u128) << 96
                | (b4 as u128) << 88 | (b5 as u128) << 80 | (b6 as u128) << 72 | (b7 as u128) << 64
                | (b8 as u128) << 56 | (b9 as u128) << 48 | (b10 as u128) << 40 | (b11 as u128) << 32
                | (b12 as u128) << 24 | (b13 as u128) << 16 | (b14 as u128) << 8 | (b15 as u128) << 0,
    ;
    assert((((w >> 88) & 0xff) as u8) == b4) by (bit_vector)
        requires
            w ==
                (b0 as u128) << 120 | (b1 as u128) << 112 | (b2 as u128) << 104 | (b3 as u128) << 96
                | (b4 as u128) << 88 | (b5 as u128) << 80 | (b6 as u128) << 72 | (b7 as u128) << 64
                | (b8 as u128) << 56 | (b9 as u128) << 48 | (b10 as u128) << 40 | (b11 as u128) << 32
                | (b12 as u128) << 24 | (b13 as u128) << 16 | (b14 as u128) << 8 | (b15 as u128) << 0,
    ;
    assert((((w >> 80) & 0xff) as u8) == b5) by (bit_vector)
        requires
            w ==
                (b0 as u128) << 120 | (b1 as u128) << 112 | (b2 as u128) << 104 | (b3 as u128) << 96
                | (b4 as u128) << 88 | (b5 as u128) << 80 | (b6 as u128) << 72 | (b7 as u128) << 64
                | (b8 as u128) << 56 | (b9 as u128) << 48 | (b10 as u128) << 40 | (b11 as u128) << 32
                | (b12 as u128) << 24 | (b13 as u128) << 16 | (b14 as u128) << 8 | (b15 as u128) << 0,
    ;
    assert((((w >> 72) & 0xff) as u8) == b6) by (bit_vector)
        requires
            w ==
                (b0 as u128) << 120 | (b1 as u128) << 112 | (b2 as u128) << 104 | (b3 as u128) << 96
                | (b4 as u128) << 88 | (b5 as u128) << 80 | (b6 as u128) << 72 | (b7 as u128) << 64
                | (b8 as u128) << 56 | (b9 as u128) << 48 | (b10 as u128) << 40 | (b11 as u128) << 32
                | (b12 as u128) << 24 | (b13 as u128) << 16 | (b14 as u128) << 8 | (b15 as u128) << 0,
    ;
    assert((((w >> 64) & 0xff) as u8) == b7) by (bit_vector)
        requires
            w ==
                (b0 as u128) << 120 | (b1 as u128) << 112 | (b2 as u128) << 104 | (b3 as u128) << 96
                | (b4 as u128) << 88 | (b5 as u128) << 80 | (b6 as u128) << 72 | (b7 as u128) << 64
                | (b8 as u128) << 56 | (b9 as u128) << 48 | (b10 as u128) << 40 | (b11 as u128) << 32
                | (b12 as u128) << 24 | (b13 as u128) << 16 | (b14 as u128) << 8 | (b15 as u128) << 0,
    ;
    assert((((w >> 56) & 0xff) as u8) == b8) by (bit_vector)
        requires
            w ==
                (b0 as u128) << 120 | (b1 as u128) << 112 | (b2 as u128) << 104 | (b3 as u128) << 96
                | (b4 as u128) << 88 | (b5 as u128) << 80 | (b6 as u128) << 72 | (b7 as u128) << 64
                | (b8 as u128) << 56 | (b9 as u128) << 48 | (b10 as u128) << 40 | (b11 as u128) << 32
                | (b12 as u128) << 24 | (b13 as u128) << 16 | (b14 as u128) << 8 | (b15 as u128) << 0,
    ;
    assert((((w >> 48) & 0xff) as u8) == b9) by (bit_vector)
        requires
            w ==
                (b0 as u128) << 120 | (b1 as u128) << 112 | (b2 as u128) << 104 | (b3 as u128) << 96
                | (b4 as u128) << 88 | (b5 as u128) << 80 | (b6 as u128) << 72 | (b7 as u128) << 64
                | (b8 as u128) << 56 | (b9 as u128) << 48 | (b10 as u128) << 40 | (b11 as u128) << 32
                | (b12 as u128) << 24 | (b13 as u128) << 16 | (b14 as u128) << 8 | (b15 as u128) << 0,
    ;
    assert((((w >> 40) & 0xff) as u8) == b10) by (bit_vector)
        requires
            w ==
                (b0 as u128) << 120 | (b1 as u128) << 112 | (b2 as u128) << 104 | (b3 as u128) << 96
                | (b4 as u128) << 88 | (b5 as u128) << 80 | (b6 as u128) << 72 | (b7 as u128) << 64
                | (b8 as u128) << 56 | (b9 as u128) << 48 | (b10 as u128) << 40 | (b11 as u128) << 32
                | (b12 as u128) << 24 | (b13 as u128) << 16 | (b14 as u128) << 8 | (b15 as u128) << 0,
    ;
    assert((((w >> 32) & 0xff) as u8) == b11) by (bit_vector)
        requires
            w ==
                (b0 as u128) << 120 | (b1 as u128) << 112 | (b2 as u128) << 104 | (b3 as u128) << 96
                | (b4 as u128) << 88 | (b5 as u128) << 80 | (b6 as u128) << 72 | (b7 as u128) << 64
                | (b8 as u128) << 56 | (b9 as u128) << 48 | (b10 as u128) << 40 | (b11 as u128) << 32
                | (b12 as u128) << 24 | (b13 as u128) << 16 | (b14 as u128) << 8 | (b15 as u128) << 0,
    ;
    assert((((w >> 24) & 0xff) as u8) == b12) by (bit_vector)
        requires
            w ==
                (b0 as u128) << 120 | (b1 as u128) << 112 | (b2 as u128) << 104 | (b3 as u128) << 96
                | (b4 as u128) << 88 | (b5 as u128) << 80 | (b6 as u128) << 72 | (b7 as u128) << 64
                | (b8 as u128) << 56 | (b9 as u128) << 48 | (b10 as u128) << 40 | (b11 as u128) << 32
                | (b12 as u128) << 24 | (b13 as u128) << 16 | (b14 as u128) << 8 | (b15 as u128) << 0,
    ;
    assert((((w >> 16) & 0xff) as u8) == b13) by (bit_vector)
        requires
            w ==
                (b0 as u128) << 120 | (b1 as u128) << 112 | (b2 as u128) << 104 | (b3 as u128) << 96
                | (b4 as u128) << 88 | (b5 as u128) << 80 | (b6 as u128) << 72 | (b7 as u128) << 64
                | (b8 as u128) << 56 | (b9 as u128) << 48 | (b10 as u128) << 40 | (b11 as u128) << 32
                | (b12 as u128) << 24 | (b13 as u128) << 16 | (b14 as u128) << 8 | (b15 as u128) << 0,
    ;
    assert((((w >> 8) & 0xff) as u8) == b14) by (bit_vector)
        requires
            w ==
                (b0 as u128) << 120 | (b1 as u128) << 112 | (b2 as u128) << 104 | (b3 as u128) << 96
                | (b4 as u128) << 88 | (b5 as u128) << 80 | (b6 as u128) << 72 | (b7 as u128) << 64
                | (b8 as u128) << 56 | (b9 as u128) << 48 | (b10 as u128) << 40 | (b11 as u128) << 32
                | (b12 as u128) << 24 | (b13 as u128) << 16 | (b14 as u128) << 8 | (b15 as u128) << 0,
    ;
    assert((((w >> 0) & 0xff) as u8) == b15) by (bit_vector)
        requires
            w ==
                (b0 as u128) << 120 | (b1 as u128) << 112 | (b2 as u128) << 104 | (b3 as u128) << 96
                | (b4 as u128) << 88 | (b5 as u128) << 80 | (b6 as u128) << 72 | (b7 as u128) << 64
                | (b8 as u128) << 56 | (b9 as u128) << 48 | (b10 as u128) << 40 | (b11 as u128) << 32
                | (b12 as u128) << 24 | (b13 as u128) << 16 | (b14 as u128) << 8 | (b15 as u128) << 0,
    ;
}

/// Joining sixteen bytes into a word and splitting it gives the bytes back.
pub proof fn lemma_bytes_of_word(s: Seq<u8>)
    requires
        s.len() == 16,
    ensures
        word_bytes(word_of(s)) == s,
{
    lemma_byte_of_joined(
        s[0],
        s[1],
        s[2],
        s[3],
        s[4],
        s[5],
        s[6],
        s[7],
        s[8],
        s[9],
        s[10],
        s[11],
        s[12],
        s[13],
        s[14],
        s[15],
    );
    assert(word_bytes(word_of(s)) =~= s);
}

/// Reads the byte of `w` that starts `shift` bits above its least
/// significant bit.
pub fn take_byte(w: u128, shift: u32) -> (r: u8)
    requires
        shift < 128,
    ensures
        r == byte_at(w, shift as u128),
{
    assert((w >> (shift as u128)) & 0xff <= 0xff) by (bit_vector);
    ((w >> shift) & 0xff) as u8
}

/// Joins the sixteen bytes of `bytes` that start at `start` into a word.
pub fn join_word(bytes: &[u8; 32], start: usize) -> (r: u128)
    requires
        start == 0 || start == 16,
    ensures
        r == word_of(bytes@.subrange(start as int, start + 16)),
{
    (bytes[start + 0] as u128) << 120 | (bytes[start + 1] as u128) << 112 | (bytes[start + 2] as u128) << 104 | (bytes[start + 3] as u128) << 96
    | (bytes[start + 4] as u128) << 88 | (bytes[start + 5] as u128) << 80 | (bytes[start + 6] as u128) << 72 | (bytes[start + 7] as u128) << 64
    | (bytes[start + 8] as u128) << 56 | (bytes[start + 9] as u128) << 48 | (bytes[start + 10] as u128) << 40 | (bytes[start + 11] as u128) << 32
    | (bytes[start + 12] as u128) << 24 | (bytes[start + 13] as u128) << 16 | (bytes[start + 14] as u128) << 8 | (bytes[start + 15] as u128) << 0
}

/// Splits two words into thirty-two bytes, those of `hi` first.
pub fn split_words(hi: u128, lo: u128) -> (r: [u8; 32])
    ensures
        r@ == word_bytes(hi) + word_bytes(lo),
{
    let r = [
        take_byte(hi, 120),
        take_byte(hi, 112),
        take_byte(hi, 104),
        take_byte(hi, 96),
        take_byte(hi, 88),
        take_byte(hi, 80),
        take_byte(hi, 72),
        take_byte(hi, 64),
        take_byte(hi, 56),
        take_byte(hi, 48),
        take_byte(hi, 40),
        take_byte(hi, 32),
        take_byte(hi, 24),
        take_byte(hi, 16),
        take_byte(hi, 8),
        take_byte(hi, 0),
        take_byte(lo, 120),
        take_byte(lo, 112),
        take_byte(lo, 104),
        take_byte(lo, 96),
        take_byte(lo, 88),
        take_byte(lo, 80),
        take_byte(lo, 72),
        take_byte(lo, 64),
        take_byte(lo, 56),
        take_byte(lo, 48),
        take_byte(lo, 40),
        take_byte(lo, 32),
        take_byte(lo, 24),
        take_byte(lo, 16),
        take_byte(lo, 8),
        take_byte(lo, 0),
    ];
    assert(r@ =~= word_bytes(hi) + word_bytes(lo));
    r
}

} // verus!
