use vstd::prelude::*;
use crate::register_pair::RegisterPair;

verus! {

/// Whether bit `bit` of `byte` is one.
pub open spec fn bit_is_set(byte: u8, bit: u8) -> bool {
    (byte >> bit) & 1u8 == 1u8
}

/// `byte` with bit `bit` made one when `on`, zero otherwise.
pub open spec fn with_bit(byte: u8, bit: u8, on: bool) -> u8 {
    if on {
        byte | (1u8 << bit)
    } else {
        byte & !(1u8 << bit)
    }
}

/// `value` plus one, wrapping around at 16 bits.
pub open spec fn wrapping_inc16(value: u16) -> u16 {
    ((value + 1) % 0x10000) as u16
}

/// `value` minus one, wrapping around at 16 bits.
pub open spec fn wrapping_dec16(value: u16) -> u16 {
    ((value - 1) % 0x10000) as u16
}

pub fn test_bit(byte: u8, bit: u8) -> (r: bool)
    requires
        bit < 8,
    ensures
        r == bit_is_set(byte, bit),
{
    (byte >> bit) & 1 == 1
}

pub fn inc_reg_pair(dest: &mut RegisterPair)
    ensures
        *final(dest) == RegisterPair::from_value(wrapping_inc16(old(dest).value())),
{
    let prev_pair = dest.get_pair();
    dest.set_pair(prev_pair.wrapping_add(1));
}

pub fn dec_reg_pair(dest: &mut RegisterPair)
    ensures
        *final(dest) == RegisterPair::from_value(wrapping_dec16(old(dest).value())),
{
    let prev_pair = dest.get_pair();
    dest.set_pair(prev_pair.wrapping_sub(1));
}

pub fn ld_u16_reg_pair(src: u16, dest: &mut RegisterPair)
    ensures
        *final(dest) == RegisterPair::from_value(src),
{
    dest.set_pair(src);
}

pub fn ld_u8_reg(src: u8, dest: &mut u8)
    ensures
        *final(dest) == src,
{
    *dest = src;
}

/// Exchanges the upper and the lower four bits of `byte`.
pub fn swap_nybbles(byte: &mut u8)
    ensures
        *final(byte) % 16 == *old(byte) / 16,
        *final(byte) / 16 == *old(byte) % 16,
{
    let b = *byte;
    assert(((b & 0xFu8) << 4u8 | (b >> 4u8)) % 16 == b / 16 && ((b & 0xFu8) << 4u8 | (b >> 4u8))
        / 16 == b % 16) by (bit_vector);
    *byte = (*byte & 0xF) << 4 | (*byte >> 4);
}

pub fn set_bit(byte: &mut u8, bit: u8)
    requires
        bit < 8,
    ensures
        *final(byte) == with_bit(*old(byte), bit, true),
{
    *byte |= 1 << bit;
}

pub fn reset_bit(byte: &mut u8, bit: u8)
    requires
        bit < 8,
    ensures
        *final(byte) == with_bit(*old(byte), bit, false),
{
    *byte &= !(1 << bit);
}

} // verus!
