//! Facts about bitwise operations on the register widths the hardware uses, proved once by
//! bit-blasting and then applied wherever a register is masked, shifted or joined.
use vstd::prelude::*;

verus! {

/// Masks and shifts of one byte, stated as arithmetic.
pub proof fn lemma_byte(x: u8)
    by (bit_vector)
    ensures
        x & 0x01u8 == x % 2,
        x & 0x03u8 == x % 4,
        x & 0x07u8 == x % 8,
        x & 0x0Fu8 == x % 16,
        x & 0x1Fu8 == x % 32,
        x & 0x3Fu8 == x % 64,
        x & 0x7Fu8 == x % 128,
        x & 0xF0u8 == x - x % 16,
        x & 0xFEu8 == x - x % 2,
        x & !0x01u8 == x & 0xFEu8,
        x >> 1u8 == x / 2,
        x >> 2u8 == x / 4,
        x >> 3u8 == x / 8,
        x >> 4u8 == x / 16,
        x >> 5u8 == x / 32,
        x >> 6u8 == x / 64,
        x >> 7u8 == x / 128,
        (x >> 2u8) & 0x03u8 == (x / 4) % 4,
        (x >> 3u8) & 0x07u8 == (x / 8) % 8,
        (x >> 4u8) & 0x07u8 == (x / 16) % 8,
        (x >> 4u8) & 0x0Fu8 == x / 16,
        (x >> 5u8) & 0x03u8 == (x / 32) % 4,
        (x >> 6u8) & 0x03u8 == x / 64,
        x | 0u8 == x,
        0u8 | x == x,
        x & 0x80u8 != 0u8 ==> x & 0x80u8 == 0x80u8,
        (x & 0x80u8 == 0u8) == (x < 0x80),
        (x | 0x80u8) | 0x80u8 == x | 0x80u8,
        x | 0x80u8 == (if x < 0x80 { x + 0x80 } else { x as int }),
        (x as u16) << 8u16 == x as u16 * 256,
        ((x as u16) << 8u16) & 0xFF00u16 == x as u16 * 256,
{
}

/// Constant bit patterns that the register reads combine.
pub proof fn lemma_const_bits()
    by (bit_vector)
    ensures
        0u8 | 0x80u8 == 0x80u8,
        0u8 | 0x40u8 == 0x40u8,
        0u8 | 0x01u8 == 0x01u8,
        0u8 | 0u8 == 0u8,
        0x80u8 | 0u8 == 0x80u8,
        0xFEu8 | 0x01u8 == 0xFFu8,
        0x0Fu8 & 0x0Fu8 & 0x0Fu8 == 0x0Fu8,
        (0xABu8 as u16) << 8u16 == 0xAB00u16,
        0u8 | 4u8 == 4u8,
        4u8 | 0u8 == 4u8,
        4u8 | 4u8 == 4u8,
{
}

/// Masking a nibble twice.
pub proof fn lemma_nibble_idem(x: u8)
    by (bit_vector)
    ensures
        0x0Fu8 & x & 0x0Fu8 == 0x0Fu8 & x,
        0x0Fu8 & 0x0Fu8 & x == 0x0Fu8 & x,
        x | 0u8 == x,
{
}

/// Wrapping a sample position to 8 or 64 steps.
pub proof fn lemma_wrap_position(q: u8)
    by (bit_vector)
    ensures
        q & 0x07u8 == q % 8,
        q & 0x3Fu8 == q % 64,
{
}

/// The parity of a position and the two nibbles of a sample byte.
pub proof fn lemma_sample_bits(p: u8, w: u8)
    by (bit_vector)
    ensures
        (p & 1u8 == 0u8) == (p % 2 == 0),
        w >> 4u8 == w / 16,
        w & 0x0Fu8 == w % 16,
{
}

/// The low nibble of a byte.
pub proof fn lemma_nibble(x: u8)
    by (bit_vector)
    ensures
        x & 0x0Fu8 == x % 16,
{
}

/// The low 12 bits of a word.
pub proof fn lemma_low12(x: u16)
    by (bit_vector)
    ensures
        x & 0x0FFFu16 == x % 4096,
{
}

/// Masks and shifts of a 16-bit word, stated as arithmetic.
pub proof fn lemma_word(x: u16)
    by (bit_vector)
    ensures
        x & 0x0001u16 == x % 2,
        x & 0x0007u16 == x % 8,
        x & 0x000Fu16 == x % 16,
        x & 0x00F0u16 == (x % 256) - (x % 16),
        x & 0x00FFu16 == x % 256,
        x & 0x01FFu16 == x % 512,
        x & 0x0FFFu16 == x % 4096,
        x & 0x1FFFu16 == x % 0x2000,
        x & 0x3FFFu16 == x % 0x4000,
        x & 0x7FFFu16 == x % 0x8000,
        x & 0xFF00u16 == x - x % 256,
        x & 0x1FF0u16 == (x % 0x2000) - (x % 16),
        x & 0xFFF0u16 == x - x % 16,
        x >> 8u16 == x / 256,
        (x >> 8u16) as u8 == x / 256,
        (x & 0x00FFu16) as u8 == x % 256,
        x as u8 == x % 256,
        x & 0x007Fu16 == x % 128,
        (x >> 6u16) & 0x0003u16 == (x / 64) % 4,
        (x >> 8u16) & 0x0003u16 == (x / 256) % 4,
        x >> 10u16 == x / 1024,
        (x >> 10u16) & 0x001Fu16 == (x / 1024) % 32,
        (x >> 5u16) & 0x001Fu16 == (x / 32) % 32,
        x & 0x001Fu16 == x % 32,
        x & 0x7C00u16 == ((x / 1024) % 32) * 1024,
        x | 0u16 == x,
{
}

/// The two bytes of a word.
pub proof fn lemma_word_bytes(x: u16)
    by (bit_vector)
    ensures
        x & 0x00FFu16 == x % 256,
        x & 0xFF00u16 == x - x % 256,
        x >> 8u16 == x / 256,
        (x >> 8u16) as u8 == x / 256,
        x as u8 == x % 256,
        (x & 0x00FFu16) as u8 == x % 256,
{
}

/// A byte widened to a word, then masked or shifted.
pub proof fn lemma_byte_word(v: u8)
    by (bit_vector)
    ensures
        (v as u16) & 0x00F0u16 == (v & 0xF0u8) as u16,
        (v & 0xF0u8) as u16 <= 0xF0,
        (v as u16) & 0x0007u16 == (v & 0x07u8) as u16,
        (v as u16) << 8u16 == v as u16 * 256,
        ((v as u16) & 0x0007u16) << 8u16 == (v & 0x07u8) as u16 * 256,
        v & 0xF0u8 == v - v % 16,
        v & 0x07u8 == v % 8,
{
}

/// The masks that turn an address into a video RAM offset.
pub proof fn lemma_vram_mask(x: u16)
    by (bit_vector)
    ensures
        x & 0x1FFFu16 == x % 0x2000,
        x & 0x01FFu16 == x % 512,
        x & 0x1FF0u16 <= 0x1FF0,
        0x8000u16 | (x & 0x1FF0u16) == 0x8000 + (x & 0x1FF0u16),
{
}

/// Joining two bytes into a word by shift and or is the same as `hi * 256 + lo`.
pub proof fn lemma_join_word(hi: u16, lo: u16)
    by (bit_vector)
    requires
        hi < 256,
        lo < 256,
    ensures
        (hi << 8u16) | lo == hi * 256 + lo,
        lo | (hi << 8u16) == hi * 256 + lo,
        (hi << 8u16) + lo == hi * 256 + lo,
{
}

/// Joining a word that is a multiple of 256 with a byte by or is addition.
pub proof fn lemma_or_low_byte(high: u16, lo: u16)
    by (bit_vector)
    requires
        high % 256 == 0,
        lo < 256,
    ensures
        high | lo == high + lo,
        lo | high == high + lo,
{
}

/// Joining two nibbles into a byte by shift and or is the same as `hi * 16 + lo`.
pub proof fn lemma_join_byte(hi: u8, lo: u8)
    by (bit_vector)
    requires
        hi < 16,
        lo < 16,
    ensures
        lo | (hi << 4u8) == hi * 16 + lo,
        (hi << 4u8) | lo == hi * 16 + lo,
{
}

/// Masks, shifts and joins on `usize` bank numbers.
pub proof fn lemma_join_index(hi: usize, lo: usize, shift: usize)
    by (bit_vector)
    requires
        shift == 5 || shift == 8,
        shift == 5 ==> hi < 8 && lo < 32,
        shift == 8 ==> hi < 256 && lo < 256,
    ensures
        hi << shift == (if shift == 5 { hi * 32 } else { hi * 256 }),
        (hi << shift) | lo == (hi << shift) + lo,
        lo | (hi << shift) == (hi << shift) + lo,
{
}

/// Masking can only clear bits.
pub proof fn lemma_and_le(x: usize, mask: usize)
    by (bit_vector)
    ensures
        x & mask <= x,
        x & mask <= mask,
{
}

/// Masking a byte can only clear bits.
pub proof fn lemma_and_le_byte(x: u8, mask: u8)
    by (bit_vector)
    ensures
        x & mask <= x,
        x & mask <= mask,
{
}

/// The low byte of a 32-bit counter.
pub proof fn lemma_low_byte32(x: u32)
    by (bit_vector)
    ensures
        x & 0xFFu32 == x % 256,
{
}

/// The fields of a serial EEPROM command word.
pub proof fn lemma_command_fields(x: u16)
    by (bit_vector)
    ensures
        x & 0x007Fu16 == x % 128,
        (x >> 8u16) & 0x0003u16 == (x / 256) % 4,
        (x >> 6u16) & 0x0003u16 == (x / 64) % 4,
{
}

/// Shifting a word right can only make it smaller.
pub proof fn lemma_shr_le(x: u16, s: u16)
    by (bit_vector)
    ensures
        x >> s <= x,
{
}

/// The sound register fields of a byte put back together give the byte.
pub proof fn lemma_sound_register_fields(v: u8)
    by (bit_vector)
    ensures
        ((((v >> 4u8) & 0x07u8) << 4u8) | (if v & 0x08u8 != 0 { 0x08u8 } else { 0 })
            | (if v & 0x80u8 != 0 { 0x80u8 } else { 0 })) | ((v & 0x07u8) & 0x07u8) == v,
        (((v >> 6u8) & 0x03u8) << 6u8) | ((v & 0x3Fu8) & 0x3Fu8) == v,
        ((((v >> 4u8) & 0x0Fu8) << 4u8) | (if v & 0x08u8 != 0 { 0x08u8 } else { 0 })) | ((v & 0x07u8) & 0x07u8) == v,
        (if v & 0x40u8 != 0 { 0x40u8 } else { 0 }) | ((v & 0x07u8) & 0x07u8) == v & 0x47u8,
        (((v >> 5u8) & 0x03u8) & 0x03u8) << 5u8 == v & 0x60u8,
        (if v & 0x80u8 != 0 { 0x80u8 } else { 0u8 }) == v & 0x80u8,
        v & 0x07u8 == v % 8,
{
}

} // verus!
