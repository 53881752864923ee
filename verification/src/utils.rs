use vstd::prelude::*;

verus! {

use vstd::arithmetic::power2::{pow2, lemma2_to64, lemma_pow2_pos};

/// High byte of a 16-bit register pair.
pub open spec fn high_byte(w: u16) -> u8 {
    (w / 256) as u8
}

/// Low byte of a 16-bit register pair.
pub open spec fn low_byte(w: u16) -> u8 {
    (w % 256) as u8
}

/// The 16-bit value assembled from a high and a low byte.
pub open spec fn to_word(high: u8, low: u8) -> u16 {
    (high as int * 256 + low as int) as u16
}

/// `w` with its high byte replaced by `v`.
pub open spec fn spec_set_high(w: u16, v: u8) -> u16 {
    to_word(v, low_byte(w))
}

/// `w` with its low byte replaced by `v`.
pub open spec fn spec_set_low(w: u16, v: u8) -> u16 {
    to_word(high_byte(w), v)
}

/// Whether the bit of weight `p` (a power of two) is set in `x`.
pub open spec fn bit_is_set(x: int, p: int) -> bool {
    (x / p) % 2 == 1
}

/// `x` with the bit of weight `p` (a power of two) forced to `v`.
pub open spec fn spec_set_bit(x: int, p: int, v: bool) -> int {
    x - ((x / p) % 2) * p + (if v { p } else { 0 })
}

/// The power of two selecting the lowest set bit of `a`, or 0 if `a` is 0.
pub open spec fn lowest_set_bit(a: u8) -> u8 {
    if a % 2 == 1 {
        1
    } else if (a / 2) % 2 == 1 {
        2
    } else if (a / 4) % 2 == 1 {
        4
    } else if (a / 8) % 2 == 1 {
        8
    } else if (a / 16) % 2 == 1 {
        16
    } else if (a / 32) % 2 == 1 {
        32
    } else if (a / 64) % 2 == 1 {
        64
    } else if (a / 128) % 2 == 1 {
        128
    } else {
        0
    }
}

/// 2 to the power `bit`, as a 16-bit value.
pub fn calc_nth_bit_power(bit: u32) -> (r: u16)
    requires
        bit < 16,
    ensures
        r == pow2(bit as nat),
{
    proof {
        lemma2_to64();
    }
    if bit == 0 {
        1
    } else if bit == 1 {
        2
    } else if bit == 2 {
        4
    } else if bit == 3 {
        8
    } else if bit == 4 {
        16
    } else if bit == 5 {
        32
    } else if bit == 6 {
        64
    } else if bit == 7 {
        128
    } else if bit == 8 {
        256
    } else if bit == 9 {
        512
    } else if bit == 10 {
        1024
    } else if bit == 11 {
        2048
    } else if bit == 12 {
        4096
    } else if bit == 13 {
        8192
    } else if bit == 14 {
        16384
    } else {
        32768
    }
}

pub fn is_bit_set_u16(number: u16, bit: u32) -> (r: bool)
    requires
        bit < 16,
    ensures
        r == bit_is_set(number as int, pow2(bit as nat) as int),
{
    proof {
        lemma_pow2_pos(bit as nat);
    }
    let p: u16 = calc_nth_bit_power(bit);
    (number / p) % 2 == 1
}

pub fn is_bit_set_u8(number: u8, bit: u32) -> (r: bool)
    requires
        bit < 8,
    ensures
        r == bit_is_set(number as int, pow2(bit as nat) as int),
{
    is_bit_set_u16(number as u16, bit)
}

#[verifier::rlimit(50)]
pub fn set_bit_u16(x: u16, bit: u32, value: bool) -> (r: u16)
    requires
        bit < 16,
    ensures
        r as int == spec_set_bit(x as int, pow2(bit as nat) as int, value),
{
    proof {
        lemma2_to64();
    }
    let setv: u16 = if value { calc_nth_bit_power(bit) } else { 0 };
    if bit == 0 {
        x - ((x / 1) % 2) * 1 + setv
    } else if bit == 1 {
        x - ((x / 2) % 2) * 2 + setv
    } else if bit == 2 {
        x - ((x / 4) % 2) * 4 + setv
    } else if bit == 3 {
        x - ((x / 8) % 2) * 8 + setv
    } else if bit == 4 {
        x - ((x / 16) % 2) * 16 + setv
    } else if bit == 5 {
        x - ((x / 32) % 2) * 32 + setv
    } else if bit == 6 {
        x - ((x / 64) % 2) * 64 + setv
    } else if bit == 7 {
        x - ((x / 128) % 2) * 128 + setv
    } else if bit == 8 {
        x - ((x / 256) % 2) * 256 + setv
    } else if bit == 9 {
        x - ((x / 512) % 2) * 512 + setv
    } else if bit == 10 {
        x - ((x / 1024) % 2) * 1024 + setv
    } else if bit == 11 {
        x - ((x / 2048) % 2) * 2048 + setv
    } else if bit == 12 {
        x - ((x / 4096) % 2) * 4096 + setv
    } else if bit == 13 {
        x - ((x / 8192) % 2) * 8192 + setv
    } else if bit == 14 {
        x - ((x / 16384) % 2) * 16384 + setv
    } else {
        x % 32768 + setv
    }
}

#[verifier::rlimit(50)]
pub fn set_bit_u8(x: u8, bit: u32, value: bool) -> (r: u8)
    requires
        bit < 8,
    ensures
        r as int == spec_set_bit(x as int, pow2(bit as nat) as int, value),
{
    proof {
        lemma2_to64();
    }
    let setv: u8 = if value { calc_nth_bit_power(bit) as u8 } else { 0 };
    if bit == 0 {
        x - ((x / 1) % 2) * 1 + setv
    } else if bit == 1 {
        x - ((x / 2) % 2) * 2 + setv
    } else if bit == 2 {
        x - ((x / 4) % 2) * 4 + setv
    } else if bit == 3 {
        x - ((x / 8) % 2) * 8 + setv
    } else if bit == 4 {
        x - ((x / 16) % 2) * 16 + setv
    } else if bit == 5 {
        x - ((x / 32) % 2) * 32 + setv
    } else if bit == 6 {
        x - ((x / 64) % 2) * 64 + setv
    } else {
        x % 128 + setv
    }
}

/// `value` with its high byte replaced by `high`.
pub fn set_high(value: u16, high: u8) -> (r: u16)
    ensures
        r == spec_set_high(value, high),
{
    (high as u16) * 256 + value % 256
}

/// `value` with its low byte replaced by `low`.
pub fn set_low(value: u16, low: u8) -> (r: u16)
    ensures
        r == spec_set_low(value, low),
{
    (value / 256) * 256 + low as u16
}

pub fn high_u8(value: u16) -> (r: u8)
    ensures
        r == high_byte(value),
{
    (value / 256) as u8
}

pub fn low_u8(value: u16) -> (r: u8)
    ensures
        r == low_byte(value),
{
    (value % 256) as u8
}

/// Carry out of bit 3 for an 8-bit addition with optional carry-in.
pub fn half_carry_add_u8(a: u8, b: u8, carry: bool) -> (r: bool)
    ensures
        r == (a % 16 + b % 16 + (if carry { 1int } else { 0int }) > 15),
{
    let c: u8 = if carry { 1 } else { 0 };
    a % 16 + b % 16 + c > 15
}

/// Borrow out of bit 3 for an 8-bit subtraction with optional carry-in.
pub fn half_carry_sub_u8(a: u8, b: u8, carry: bool) -> (r: bool)
    ensures
        r == ((a % 16) < b % 16 + (if carry { 1int } else { 0int })),
{
    let c: u8 = if carry { 1 } else { 0 };
    (a % 16) < b % 16 + c
}

/// Carry out of bit 11 for a 16-bit addition.
pub fn half_carry_add_u16(a: u16, b: u16) -> (r: bool)
    ensures
        r == (a % 4096 + b % 4096 > 4095),
{
    a % 4096 + b % 4096 > 4095
}

/// The power of two selecting the lowest set bit of `a`, or 0 if `a` is 0.
pub fn to_lowest_bit_set(a: u8) -> (r: u8)
    ensures
        r == lowest_set_bit(a),
{
    if a % 2 == 1 {
        1
    } else if (a / 2) % 2 == 1 {
        2
    } else if (a / 4) % 2 == 1 {
        4
    } else if (a / 8) % 2 == 1 {
        8
    } else if (a / 16) % 2 == 1 {
        16
    } else if (a / 32) % 2 == 1 {
        32
    } else if (a / 64) % 2 == 1 {
        64
    } else if (a / 128) % 2 == 1 {
        128
    } else {
        0
    }
}

/// Replacing the high byte of a pair leaves the low nibble (and the whole
/// low byte) untouched.
pub proof fn lemma_set_high_nibble(w: u16, v: u8)
    ensures
        spec_set_high(w, v) as int % 16 == w as int % 16,
{
    let low = w as int % 256;
    let t = v as int * 256 + low;
    assert(spec_set_high(w, v) as int == t);
    vstd::arithmetic::div_mod::lemma_fundamental_div_mod_converse(w as int, 16, (w as int / 256)
        * 16 + low / 16, low % 16);
    vstd::arithmetic::div_mod::lemma_fundamental_div_mod_converse(t, 16, v as int * 16 + low / 16,
        low % 16);
}

/// 16-bit value `w` displaced by `d`, wrapping modulo 2^16.
pub open spec fn wrap_add16(w: u16, d: int) -> u16 {
    ((w + d) % 0x10000) as u16
}

/// `w + 1` wrapping modulo 2^16.
pub fn wrap_inc(w: u16) -> (r: u16)
    ensures
        r == wrap_add16(w, 1),
{
    if w == 0xFFFF {
        0
    } else {
        w + 1
    }
}

/// `w - 1` wrapping modulo 2^16.
pub fn wrap_dec(w: u16) -> (r: u16)
    ensures
        r == wrap_add16(w, -1),
{
    if w == 0 {
        0xFFFF
    } else {
        w - 1
    }
}

/// Round-trip register packing: splitting any 16-bit value into its two
/// bytes and storing them back through the high and low half of a pair
/// reassembles exactly that value.
pub proof fn lemma_register_roundtrip(pair: u16, v: u16)
    ensures
        spec_set_low(spec_set_high(pair, high_byte(v)), low_byte(v)) == v,
{
}

} // verus!
