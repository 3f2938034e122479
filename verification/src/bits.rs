use vstd::prelude::*;

verus! {

/// Whether bit `n` of a word is one.
pub open spec fn bit_of(value: u32, n: u32) -> bool {
    (value >> n) & 1u32 == 1u32
}

/// Whether bit `n` of a half word is one.
pub open spec fn bit_of16(value: u16, n: u16) -> bool {
    (value >> n) & 1u16 == 1u16
}

/// The value of bit `n` of a word, as `0` or `1`.
pub fn get_bit(value: u32, n: u32) -> (r: u32)
    requires
        n < 32,
    ensures
        r == (value >> n) & 1u32,
        r == 0 || r == 1,
        r == 1 <==> bit_of(value, n),
{
    proof {
        lemma_word_bits(value, n, 0);
    }
    (value >> n) & 1u32
}

/// Whether bit `n` of a word is set.
pub fn bit_is_set(value: u32, n: u32) -> (r: bool)
    requires
        n < 32,
    ensures
        r == bit_of(value, n),
{
    (value >> n) & 1u32 == 1u32
}

/// The value of bit `n` of a half word, as `0` or `1`.
pub fn get_bit16(value: u16, n: u16) -> (r: u16)
    requires
        n < 16,
    ensures
        r == (value >> n) & 1u16,
        r == 0 || r == 1,
        r == 1 <==> bit_of16(value, n),
{
    proof {
        lemma_half_bits(value, n);
    }
    (value >> n) & 1u16
}

/// Whether bit `n` of a half word is set.
pub fn bit_is_set16(value: u16, n: u16) -> (r: bool)
    requires
        n < 16,
    ensures
        r == bit_of16(value, n),
{
    (value >> n) & 1u16 == 1u16
}

/// The word with bit `n` set to one.
pub fn set_bit(value: u32, n: u32) -> (r: u32)
    requires
        n < 32,
    ensures
        r == value | (1u32 << n),
{
    value | (1u32 << n)
}

/// The word with bit `n` cleared.
pub fn reset_bit(value: u32, n: u32) -> (r: u32)
    requires
        n < 32,
    ensures
        r == value & !(1u32 << n),
{
    value & !(1u32 << n)
}

/// Setting a bit makes it read back as set and leaves every other bit alone;
/// clearing a bit makes it read back as clear and leaves every other bit alone.
pub proof fn lemma_set_reset_bit(value: u32, n: u32, m: u32)
    requires
        n < 32,
        m < 32,
    ensures
        bit_of(value | (1u32 << n), n),
        !bit_of(value & !(1u32 << n), n),
        m != n ==> (bit_of(value | (1u32 << n), m) == bit_of(value, m)),
        m != n ==> (bit_of(value & !(1u32 << n), m) == bit_of(value, m)),
{
    lemma_word_bits(value, n, m);
}

/// The sign extension of a field whose sign bit is bit `n`: when that bit is
/// set, every bit above it is set as well.
pub open spec fn spec_sign_extend(value: u32, n: u32) -> u32 {
    if bit_of(value, n) {
        value | (0xFFFF_FFFFu32 << n)
    } else {
        value
    }
}

/// Sign-extends a field of `n + 1` bits held in the low bits of `value`.
pub fn sign_extend(value: u32, n: u32) -> (r: u32)
    requires
        n < 32,
    ensures
        r == spec_sign_extend(value, n),
{
    if (value >> n) & 1u32 == 1u32 {
        value | (0xFFFF_FFFFu32 << n)
    } else {
        value
    }
}

/// Rotation of a word to the right by `amount` modulo 32 places.
pub open spec fn spec_rotate_right(value: u32, amount: u32) -> u32 {
    let k = amount & 31u32;
    if k == 0 {
        value
    } else {
        (value >> k) | (value << (32u32 - k))
    }
}

/// Rotates a word right by `amount` places, taken modulo 32.
pub fn rotate_right(value: u32, amount: u32) -> (r: u32)
    ensures
        r == spec_rotate_right(value, amount),
{
    proof {
        lemma_word_bits(amount, 0, 0);
    }
    let k = amount & 31u32;
    if k == 0 {
        value
    } else {
        (value >> k) | (value << (32u32 - k))
    }
}

/// The two's complement negation of a word.
pub fn twos_complement(value: u32) -> (r: u32)
    ensures
        r as int == (0x1_0000_0000int - value) % 0x1_0000_0000int,
{
    proof {
        lemma_word_bits(value, 0, 0);
    }
    (!value).wrapping_add(1)
}

/// Setting or clearing a bit at or above bit 5 leaves the five low bits.
pub proof fn lemma_high_bit_keeps_low_bits(p: u32, n: u32)
    requires
        5 <= n < 32,
    ensures
        (p | (1u32 << n)) & 0x1Fu32 == p & 0x1Fu32,
        (p & !(1u32 << n)) & 0x1Fu32 == p & 0x1Fu32,
{
    lemma_word_bits(p, n, 0);
}

/// Bounds of the register fields that instructions hold.
pub proof fn lemma_register_fields(v: u32)
    ensures
        v & 0xFu32 < 16,
        (v & 0xF0u32) >> 4u32 < 16,
        (v & 0xF00u32) >> 8u32 < 16,
        (v & 0xF000u32) >> 12u32 < 16,
        (v & 0xF_0000u32) >> 16u32 < 16,
        v & 0x7u32 < 8,
        (v & 0x38u32) >> 3u32 < 8,
        (v & 0x1C0u32) >> 6u32 < 8,
        (v & 0x700u32) >> 8u32 < 8,
{
    lemma_word_fields(v);
}

/// Facts about a word and two bit positions: a bit reads as 0 or 1;
/// setting or clearing bit `n` decides that bit and keeps bit `m` and, for
/// `n` at or above 5, the five low bits; the complement is a subtraction;
/// bit 31 is the sign; replacing the five low bits by `m` keeps bit `n`.
pub proof fn lemma_word_bits(v: u32, n: u32, m: u32)
    by (bit_vector)
    ensures
        (v >> n) & 1u32 == 0u32 || (v >> n) & 1u32 == 1u32,
        n < 32 ==> ((v | (1u32 << n)) >> n) & 1u32 == 1u32,
        n < 32 ==> ((v & !(1u32 << n)) >> n) & 1u32 == 0u32,
        n < 32 && m < 32 && m != n ==> ((v | (1u32 << n)) >> m) & 1u32 == (v >> m) & 1u32,
        n < 32 && m < 32 && m != n ==> ((v & !(1u32 << n)) >> m) & 1u32 == (v >> m) & 1u32,
        5 <= n < 32 ==> (v | (1u32 << n)) & 0x1Fu32 == v & 0x1Fu32,
        5 <= n < 32 ==> (v & !(1u32 << n)) & 0x1Fu32 == v & 0x1Fu32,
        v & 31u32 < 32,
        !v == 0xFFFF_FFFFu32 - v,
        ((v >> 31u32) & 1u32 == 1u32) == (v >= 0x8000_0000u32),
        m & !0x1Fu32 == 0 ==> ((v & !0x1Fu32) | m) & 0x1Fu32 == m,
        m & !0x1Fu32 == 0 && 5 <= n < 32 ==> ((((v & !0x1Fu32) | m) >> n) & 1u32) == (v >> n) & 1u32,
        v < 0x1_0000u32 ==> (v >> 16u32) & 1u32 == 0u32,
        (((v & 0xFFu32) | (1u32 << 15u32)) >> 15u32) & 1u32 == 1u32,
        (((v & 0xFFu32) | (1u32 << 15u32)) >> n) & 1u32 == 1u32 && n != 15 ==> n < 8,
{
}

/// Masks that clear the low bits of an address, and the low byte of a word.
pub proof fn lemma_word_align(v: u32)
    by (bit_vector)
    ensures
        (v & !1u32) == (v & 0xFFFF_FFFEu32),
        (v & 0xFFFF_FFFEu32) & 0xFFFF_FFFEu32 == v & 0xFFFF_FFFEu32,
        (v & !1u32) & 0xFFFF_FFFEu32 == v & !1u32,
        ((v & !1u32) & 0xFFFF_FFFEu32) & 0xFFFF_FFFEu32 == v & !1u32,
        (v & !3u32) & 0xFFFF_FFFEu32 == v & !3u32,
        ((v & !3u32) & 0xFFFF_FFFEu32) & 0xFFFF_FFFEu32 == v & !3u32,
        (v & !2u32) & 0xFFFF_FFFEu32 == v & !3u32,
        v & 0xFFu32 == (v >> 0u32) & 0xFFu32,
        (v & (0xFu32 << 20u32) == 0) ==> (v >> 20u32) & 1u32 == 0u32,
        v == 0 ==> v & 31u32 == 0u32,
        v == 0 ==> v & 0xFFFF_FFFEu32 == 0u32 && (v + 4u32) as u32 & 0xFFFF_FFFEu32 == 4u32,
        v == 0b1101_0011u32 ==> (v >> 5u32) & 1u32 == 0u32,
{
}

/// Bounds of the fields that instructions hold.
pub proof fn lemma_word_fields(v: u32)
    by (bit_vector)
    ensures
        v & 0xFu32 < 16,
        (v & 0xF0u32) >> 4u32 < 16,
        (v & 0xF00u32) >> 8u32 < 16,
        (v & 0xF000u32) >> 12u32 < 16,
        (v & 0xF_0000u32) >> 16u32 < 16,
        v & 0x7u32 < 8,
        (v & 0x38u32) >> 3u32 < 8,
        (v & 0x1C0u32) >> 6u32 < 8,
        (v & 0x700u32) >> 8u32 < 8,
        (v & 0x0F00u32) >> 7u32 <= 30,
        (v & 0x0F80u32) >> 7u32 < 32,
        (v & 0x01E0_0000u32) >> 21u32 < 16,
        (v & 0xF000_0000u32) >> 28u32 <= 15,
        (v & 0x0600u32) >> 9u32 < 4,
        (v & 0x1800u32) >> 11u32 < 4,
        (v & 0x07C0u32) >> 6u32 < 32,
        ((v & 0x07C0u32) >> 6u32) & 0xFFu32 == (v & 0x07C0u32) >> 6u32,
        v & 0xFFu32 <= 0xFF,
        v & 0x7Fu32 <= 0x7F,
        v & 0xFFFFu32 < 0x1_0000u32,
        (v & 0xFFu32) | (1u32 << 14u32) < 0x1_0000,
        (v & 0xFFu32) | (1u32 << 15u32) < 0x1_0000,
        (((v >> 7u32) & 1u32) << 3u32) | ((v & 0x0007u32) >> 0u32) < 16,
        (((v >> 6u32) & 1u32) << 3u32) | ((v & 0x0038u32) >> 3u32) < 16,
{
}

/// Facts about a half word and a bit position.
pub proof fn lemma_half_bits(v: u16, n: u16)
    by (bit_vector)
    ensures
        (v >> n) & 1u16 == 0u16 || (v >> n) & 1u16 == 1u16,
        (v >> 10u16) & 0x3u16 < 4,
        (v >> 14u16) & 0x3u16 < 4,
        v & 0xFFu16 == (v >> 0u16) & 0xFFu16,
        (v & 1u16 > 0) == ((v >> 0u16) & 1u16 == 1u16),
        ((v >> 8u16) & 0xFu16) >> 0u16 == (v >> 8u16) & 0xFu16,
        n < 4 ==> (((((v >> 8u16) & 0xFu16) >> n) & 1u16 > 0) == ((v >> ((8 + n) as u16)) & 1u16 == 1u16)),
        n < 4 ==> (((v >> 8u16) & 0xFu16) >> n) >> 1u16 == ((v >> 8u16) & 0xFu16) >> ((n + 1) as u16),
        ((v & !0x8000u16) >> 15u16) & 1u16 == 0u16,
{
}

/// Offsets into the I/O registers, aligned down to a word.
pub proof fn lemma_offset_bits(a: usize)
    by (bit_vector)
    ensures
        a & 0xFFCusize <= 0xFFC,
        a & 3usize <= 3,
        a & 0x3FFusize <= 0x3FF,
        a & 1usize <= 1,
        a & 2usize <= 2,
        a < 0x1000 ==> a & 0xFFFusize == a,
        a & 0xFusize <= 0xF,
        (a & 0xFFCusize) & 0xFFEusize == a & 0xFFCusize,
        (((a & 0xFFCusize) + 2) as usize) & 0xFFEusize == (a & 0xFFCusize) + 2,
        (a & 0xFFEusize) & 0xFFEusize == a & 0xFFEusize,
        (a & 0xFFEusize) <= (a & 0xFFFusize),
        a % 4 == 0 ==> a & 3usize == 0,
        a == 0 || a == 4 ==> (a & !3usize) & 0xFF_FFFFusize == a && a >> 24usize == 0,
        a == 4 ==> a >> 1usize == 2,
        a == 6 ==> a >> 1usize == 3,
        a == 0x202 ==> a >> 1usize == 0x101,
{
}

} // verus!
