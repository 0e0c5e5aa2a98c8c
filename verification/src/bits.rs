//! Facts that tie the bitwise operators to arithmetic on bytes and words.
use vstd::prelude::*;

verus! {

/// Masks and shifts of a byte, as remainders and quotients.
pub proof fn lemma_byte_fields(x: u8)
    by (bit_vector)
    ensures
        x & 0x0F == x % 16,
        x & 0xF0 == x - x % 16,
        x & 0x80 == (x / 128) * 128,
        x & 0x01 == x % 2,
        x >> 1 == x / 2,
        x >> 4 == x / 16,
        x >> 7 == x / 128,
        (x << 1) == (x % 128) * 2,
        (x << 4) == (x % 16) * 16,
{
}

/// Joining two bytes into a word, and taking a word apart.
pub proof fn lemma_word_fields(hi: u8, lo: u8, w: u16)
    by (bit_vector)
    ensures
        ((hi as u16) << 8) | (lo as u16) == hi as u16 * 256 + lo as u16,
        w >> 8 == w / 256,
        w & 0x00FF == w % 256,
        w & 0x000F == w % 16,
        w & 0x0FFF == w % 4096,
        0xFF00u16 | (lo as u16) == 0xFF00 + lo as u16,
{
}

/// Setting and clearing the bits of a mask within the upper nibble, flag by
/// flag.
pub proof fn lemma_mask_update(b: u8, m: u8)
    by (bit_vector)
    ensures
        ((b | m) & 0xF0) / 128 % 2 == 1 <==> (b / 128 % 2 == 1 || m / 128 % 2 == 1),
        ((b | m) & 0xF0) / 64 % 2 == 1 <==> (b / 64 % 2 == 1 || m / 64 % 2 == 1),
        ((b | m) & 0xF0) / 32 % 2 == 1 <==> (b / 32 % 2 == 1 || m / 32 % 2 == 1),
        ((b | m) & 0xF0) / 16 % 2 == 1 <==> (b / 16 % 2 == 1 || m / 16 % 2 == 1),
        ((b | m) & 0xF0) % 16 == 0,
        ((b & !m) & 0xF0) / 128 % 2 == 1 <==> (b / 128 % 2 == 1 && m / 128 % 2 != 1),
        ((b & !m) & 0xF0) / 64 % 2 == 1 <==> (b / 64 % 2 == 1 && m / 64 % 2 != 1),
        ((b & !m) & 0xF0) / 32 % 2 == 1 <==> (b / 32 % 2 == 1 && m / 32 % 2 != 1),
        ((b & !m) & 0xF0) / 16 % 2 == 1 <==> (b / 16 % 2 == 1 && m / 16 % 2 != 1),
        ((b & !m) & 0xF0) % 16 == 0,
        (b & (m & 0xF0)) == (m & 0xF0) <==> ((m / 128 % 2 == 1 ==> b / 128 % 2 == 1) && (m / 64 % 2
            == 1 ==> b / 64 % 2 == 1) && (m / 32 % 2 == 1 ==> b / 32 % 2 == 1) && (m / 16 % 2 == 1
            ==> b / 16 % 2 == 1)),
{
}

/// Unions, intersections and differences of sets of the five low bits stay
/// within the five low bits.
pub proof fn lemma_low_five(a: u8, b: u8)
    by (bit_vector)
    ensures
        a & 0x1F < 0x20,
        a < 0x20 && b < 0x20 ==> (a | b) < 0x20,
        a < 0x20 ==> (a & b) < 0x20,
        a < 0x20 ==> (a & !b) < 0x20,
        a < 0x20 ==> a & 0x1F == a,
        (a & (b & 0x1F)) == (a & b) & 0x1F,
{
}

/// The lowest set bit of a byte below 0x20, by the two's-complement idiom:
/// `n` is the complement of `p` plus one, wrapped to a byte.
pub proof fn lemma_lowest_bit(p: u8, n: u8)
    by (bit_vector)
    requires
        p < 0x20,
        !p == 0xFF ==> n == 0,
        !p != 0xFF ==> n == !p + 1,
    ensures
        p == 0 ==> p & n == 0,
        p % 2 == 1 ==> p & n == 1,
        p % 4 == 2 ==> p & n == 2,
        p % 8 == 4 ==> p & n == 4,
        p % 16 == 8 ==> p & n == 8,
        p == 16 ==> p & n == 16,
        (p & n) & 0x1F == p & n,
{
}

/// The fields of TAC: the frequency code and the enable bit.
pub proof fn lemma_tac_fields(tac: u8)
    by (bit_vector)
    ensures
        tac & 0b11 == tac % 4,
        (tac & 0b100 != 0) <==> tac / 4 % 2 == 1,
{
}

/// The divider bits that the timer can select, and the byte that DIV shows.
pub proof fn lemma_div_bits(div: u16)
    by (bit_vector)
    ensures
        (div & 0x0200 != 0) <==> div / 512 % 2 == 1,
        (div & 0x0008 != 0) <==> div / 8 % 2 == 1,
        (div & 0x0020 != 0) <==> div / 32 % 2 == 1,
        (div & 0x0080 != 0) <==> div / 128 % 2 == 1,
        div >> 8 == div / 256,
{
}

/// The joypad register: its selector bits and its forced upper bits.
pub proof fn lemma_joypad_bits(reg: u8, data: u8, a: u8, b: u8)
    by (bit_vector)
    ensures
        reg & 0xF0 == reg - reg % 16,
        (reg & 0x20 == 0) <==> reg / 32 % 2 == 0,
        (reg & 0x10 == 0) <==> reg / 16 % 2 == 0,
        (data & 0x3F) | 0xC0 == 0xC0 + data % 64,
        a < 16 ==> (reg & 0xF0) | a == (reg - reg % 16) + a,
        a < 16 && b < 16 ==> (reg & 0xF0) | (a & b) == (reg - reg % 16) + (a & b),
        a < 16 ==> (a & b) < 16,
        a < 16 && b < 16 ==> (a | b) < 16,
        a < 16 ==> (a & !b) < 16,
        (reg - reg % 16) + a >= 0xC0 <== reg >= 0xC0 && a < 16,
{
}

/// Addresses folded into the work RAM and the high RAM.
pub proof fn lemma_ram_masks(address: u16)
    by (bit_vector)
    ensures
        (address as usize) & 0x1FFF == address % 0x2000,
        (address as usize) & 0x7F == address % 0x80,
{
}

/// Rotations and shifts of a byte with a carry bit coming in.
pub proof fn lemma_shifts(x: u8, cy: u8)
    by (bit_vector)
    requires
        cy <= 1,
    ensures
        (x & 0x80 != 0) <==> x >= 128,
        (x & 0x01 != 0) <==> x % 2 == 1,
        (x << 1) | cy == (x % 128) * 2 + cy,
        (cy << 7) | (x >> 1) == cy * 128 + x / 2,
        x << 1 == (x % 128) * 2,
        (x & 0x80) | (x >> 1) == (x / 128) * 128 + x / 2,
        x >> 1 == x / 2,
        (x << 4) | (x >> 4) == (x % 16) * 16 + x / 16,
        !x == 255 - x,
        x & 0x0F == x % 16,
        x & 0x38 == (x / 8 % 8) * 8,
{
}

/// Testing, setting and clearing one bit of a byte.
pub proof fn lemma_single_bit(x: u8, n: u8)
    by (bit_vector)
    requires
        n < 8,
    ensures
        (x & (1u8 << n) == 0) <==> ((x >> n) & 1 == 0),
{
}

/// A sum of three bytes, and the low parts of a word.
pub proof fn lemma_sum_fields(sum: u16, w: u16, v: u16)
    by (bit_vector)
    ensures
        sum & 0x00FF == sum % 256,
        sum < 0x100 ==> sum & 0x00FF == sum,
        0x100 <= sum < 0x200 ==> sum & 0x00FF == sum - 0x100,
        w & 0x00FF == w % 256,
        w & 0x000F == w % 16,
        w & 0x0FFF == w % 4096,
        v & 0x00FF == v % 256,
        v & 0x000F == v % 16,
        v & 0x0FFF == v % 4096,
{
}

/// Turning a byte round by one bit, to the left and to the right, and what
/// eight such turns come to.
pub proof fn lemma_turns(x: u8)
    by (bit_vector)
    ensures
        (x % 128) * 2 + x / 128 == (x << 1) | (x >> 7),
        (x % 2) * 128 + x / 2 == (x >> 1) | (x << 7),
        ({
            let a = (x << 1) | (x >> 7);
            let b = (a << 1) | (a >> 7);
            let c = (b << 1) | (b >> 7);
            let d = (c << 1) | (c >> 7);
            let e = (d << 1) | (d >> 7);
            let f = (e << 1) | (e >> 7);
            let g = (f << 1) | (f >> 7);
            (g << 1) | (g >> 7) == x
        }),
        ({
            let a = (x >> 1) | (x << 7);
            let b = (a >> 1) | (a << 7);
            let c = (b >> 1) | (b << 7);
            let d = (c >> 1) | (c << 7);
            let e = (d >> 1) | (d << 7);
            let f = (e >> 1) | (e << 7);
            let g = (f >> 1) | (f << 7);
            (g >> 1) | (g << 7) == x
        }),
{
}

/// The interrupt of the highest priority is one that is pending, and
/// clearing it leaves it cleared.
pub proof fn lemma_priority_bit(p: u8, k: u8)
    by (bit_vector)
    requires
        (k == 1 && p % 2 == 1) || (k == 2 && p % 4 == 2) || (k == 4 && p % 8 == 4) || (k == 8 && p
            % 16 == 8) || (k == 16 && p % 32 == 16),
    ensures
        p & k == k,
        (p & !k) & k == 0,
{
}

} // verus!
