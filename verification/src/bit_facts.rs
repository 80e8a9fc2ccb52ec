use vstd::prelude::*;

verus! {

/// Masking never gives more than the mask or the value, a single bit is 0 or 1, and a
/// 2-bit pixel made of two bits is below 4 (bytes).
pub proof fn lemma_u8_masks()
    by (bit_vector)
    ensures
        forall|x: u8, m: u8| #[trigger] (x & m) <= m && (x & m) <= x,
        forall|x: u8, b: u8| #[trigger] ((x >> b) & 1) <= 1,
        forall|h: u8, l: u8, b: u8| #[trigger] ((((h >> b) & 1) << 1u8) | ((l >> b) & 1)) < 4,
        forall|x: u8| #[trigger] (x & 0x0e) == ((x & 0x0f) & !1u8),
        forall|x: u8| #[trigger] ((x & 0xfe) % 2) == 0,
        forall|x: u8| #[trigger] (x >> 3u8) < 32,
        forall|x: u8| #[trigger] ((x >> 6u8) & 0x03) < 4,
        forall|x: u8| #[trigger] ((x >> 4u8) & 0x07) < 8,
{
}

/// Masking never gives more than the mask or the value, and the low bits of a 16-bit
/// value are its remainder by the matching power of two (16-bit words).
pub proof fn lemma_u16_masks()
    by (bit_vector)
    ensures
        forall|x: u16, m: u16| #[trigger] (x & m) <= m && (x & m) <= x,
        forall|x: u16| #[trigger] (x & 0x3fff) == x % 0x4000,
        forall|x: u16| #[trigger] (x & 0x7ff) == x % 0x800,
        forall|x: u16| #[trigger] ((x >> 5u16) & 0x1f) < 32,
        forall|x: u16| #[trigger] ((x & 0x7000) >> 12u16) < 8,
        forall|x: u16| #[trigger] ((x & 0x400) >> 10u16) <= 1,
        forall|x: u16| #[trigger] ((x & 0x800) >> 11u16) <= 1,
        forall|x: u16| #[trigger] ((x & 0xc00) >> 10u16) < 4,
        forall|x: u16| #[trigger] ((x >> 11u16) & 7) < 8,
        forall|x: u16| #[trigger] ((x >> 11u16) & 3) < 4,
        forall|x: u16| #[trigger] ((x >> 13u16) & 3) < 4,
        forall|x: u16| #[trigger] ((x >> 2u16) & 3) < 4,
        forall|x: u16| #[trigger] (x & 1) == 0 || (x & 1) == 1,
{
}

/// Masking never gives more than the mask or the value, and the low bits of an index are
/// its remainder by the matching power of two (indices).
pub proof fn lemma_usize_masks()
    by (bit_vector)
    ensures
        forall|x: usize, m: usize| #[trigger] (x & m) <= m && (x & m) <= x,
        forall|x: usize| #[trigger] (x & 0x3ff) == x % 0x400,
        forall|x: usize| #[trigger] (((x >> 4usize) & 4) | (x & 2)) <= 6,
        forall|x: usize| #[trigger] ((x >> 12usize) & 7) <= 7,
        forall|x: usize| #[trigger] (x & x) == x,
{
}

/// Shifting right never increases a word.
pub proof fn lemma_u16_shr_le()
    by (bit_vector)
    ensures
        forall|x: u16, s: u8| #[trigger] (x >> s) <= x,
{
}

/// The period writes of the APU channels keep an 11-bit period.
pub proof fn lemma_timer_bits(timer: u16, val: u8)
    by (bit_vector)
    ensures
        (timer & 0xFF) | (((val as u16) & 0x07) << 8u16) <= 0x7ff,
        timer <= 0x7ff ==> (timer & 0x700) | (val as u16) <= 0x7ff,
        (val >> 3u8) < 32,
{
}

/// The bit fields of a byte as arithmetic: its low bits are its remainder by a power of
/// two, a single bit is a binary digit, shifting right halves and shifting left doubles
/// modulo 256, and a carry shifted in is added.
pub proof fn lemma_u8_fields()
    by (bit_vector)
    ensures
        forall|x: u8| #[trigger] (x & 1) == x % 2,
        forall|x: u8| #[trigger] (x & 3) == x % 4,
        forall|x: u8| #[trigger] (x & 7) == x % 8,
        forall|x: u8| #[trigger] (x & 0xf) == x % 16,
        forall|x: u8| #[trigger] (x & 0x3f) == x % 64,
        forall|x: u8| #[trigger] (x & 0x7f) == x % 128,
        forall|x: u8| #[trigger] ((x & 0x40) >> 6u8) == (x / 64) % 2,
        forall|x: u8| #[trigger] ((x & 0x80) >> 7u8) == x / 128,
        forall|x: u8| #[trigger] ((x >> 4u8) & 1) == (x / 16) % 2,
        forall|x: u8| #[trigger] ((x >> 6u8) & 3) == x / 64,
        forall|x: u8| #[trigger] ((x >> 2u8) & 3) == (x / 4) % 4,
        forall|x: u8| #[trigger] (x & 0x0e) == 2 * ((x / 2) % 8),
        forall|x: u8| #[trigger] (x >> 4u8) == x / 16,
        forall|x: u8| #[trigger] (x >> 1u8) == x / 2,
        forall|x: u8| #[trigger] (x & 2) == 2 * ((x / 2) % 2),
        forall|x: u8| #[trigger] (x & 4) == 4 * ((x / 4) % 2),
        forall|x: u8| #[trigger] (x & 8) == 8 * ((x / 8) % 2),
        forall|x: u8| #[trigger] (x & 0x10) == 16 * ((x / 16) % 2),
        forall|x: u8| #[trigger] (x & 0x40) == 64 * ((x / 64) % 2),
        forall|x: u8| #[trigger] (x | 0x10) + 16 * ((x / 16) % 2) == x + 16,
        forall|x: u8| #[trigger] (x & 0xfe) == 2 * (x / 2),
        forall|x: u8| #[trigger] (x << 1u8) + 256 * (x / 128) == 2 * x,
        forall|x: u8, c: u8| c <= 1 ==> #[trigger] ((x << 1u8) | c) + 256 * (x / 128) == 2 * x + c,
        forall|x: u8, c: u8| c <= 1 ==> #[trigger] ((x >> 1u8) | (c << 7u8)) == x / 2 + 128 * c,
        forall|x: u8| #[trigger] (x & 0x20) == 32 * ((x / 32) % 2),
        forall|x: u8| #[trigger] (x & 0x80) == 128 * (x / 128),
        forall|k: u8| #[trigger] ((0u8 >> k) & 1) == 0u8,
        ((0u8 << 1u8) | 0u8) == 0u8 && ((1u8 << 1u8) | 1u8) == 3u8,
        (1u8 << 5u8) == 0x20u8 && (1u8 << 6u8) == 0x40u8 && (1u8 << 7u8) == 0x80u8,
{
}

/// The low bits of a word are its remainder by the matching power of two.
pub proof fn lemma_word_fields()
    by (bit_vector)
    ensures
        forall|x: u16| #[trigger] (x & 1) == x % 2,
        forall|x: u16| #[trigger] (x & 3) == x % 4,
        forall|x: u16| #[trigger] (x & 0xf) == x % 16,
        forall|x: u16| #[trigger] (x & 0x1f) == x % 32,
        forall|x: u16| #[trigger] (x & 0xfff) == x % 0x1000,
        forall|x: u16| #[trigger] (x & 0x1fff) == x % 0x2000,
        forall|x: u16| #[trigger] ((x >> 13u16) & 3) == (x / 0x2000) % 4,
{
}


/// The low bits of an index are its remainder by the matching power of two, bits 4-5 are
/// its sixteens modulo 4, and clearing or setting bit 0 of a byte-sized index rounds it to
/// an even or odd one.
pub proof fn lemma_index_fields()
    by (bit_vector)
    ensures
        forall|x: usize| #[trigger] (x & 0) == 0,
        forall|x: usize| #[trigger] (x & 0x3f) == x % 64,
        forall|x: usize| #[trigger] (x & 3) == x % 4,
        forall|x: usize| #[trigger] (x & 0x1) == x % 0x2,
        forall|x: usize| #[trigger] (x & 0x7) == x % 0x8,
        forall|x: usize| #[trigger] (x & 0xf) == x % 0x10,
        forall|x: usize| #[trigger] (x & 0x1f) == x % 0x20,
        forall|x: usize| #[trigger] (x & 0x7f) == x % 0x80,
        forall|x: usize| #[trigger] (x & 0xff) == x % 0x100,
        forall|x: usize| #[trigger] (x & 0x1ff) == x % 0x200,
        forall|x: usize| #[trigger] (x & 0x7ff) == x % 0x800,
        forall|x: usize| #[trigger] (x & 0xfff) == x % 0x1000,
        forall|x: usize| #[trigger] (x & 0x1fff) == x % 0x2000,
        forall|x: usize| #[trigger] ((x & 0x30) >> 4usize) == (x / 16) % 4,
        forall|x: usize| x < 256 ==> #[trigger] (x & 0xfe) == 2 * (x / 2),
        forall|x: usize| x < 256 ==> #[trigger] (x | 1) == 2 * (x / 2) + 1,
{
}


} // verus!
