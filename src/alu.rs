//! Arithmetic, logic and rotation operations of the processor.
use vstd::prelude::*;
use crate::cpu::Cpu;
use crate::semantics::{
    adc8, add_hl, add8, and8, cp8, dec8, inc8, or8, rl8, rlc8, rr8, rrc8, sbc8, sub8, xor8,
};

verus! {

impl Cpu {
    /// Adds src and register A together and stores the sum in A.
    pub fn add_u8_a(&mut self, src: u8)
        ensures
            *final(self) == old(self).after_alu(add8(old(self).reg_af.hi, src)),
    {
        let a = self.reg_af.hi;
        let sum = a.wrapping_add(src);
        self.reg_af.hi = sum;
        self.write_flags(
            sum == 0,
            false,
            (a & 0x0F) as u16 + (src & 0x0F) as u16 > 0x0F,
            a as u16 + src as u16 > 0xFF,
        );
    }

    /// Add function with carry bit.
    pub fn adc_reg_a(&mut self, src: u8)
        ensures
            *final(self) == old(self).after_alu(
                adc8(old(self).reg_af.hi, src, old(self).carry_flag()),
            ),
    {
        let a = self.reg_af.hi;
        let carry: u8 = if self.get_carry_flag() {
            1
        } else {
            0
        };
        let sum = a.wrapping_add(src).wrapping_add(carry);
        self.reg_af.hi = sum;
        self.write_flags(
            sum == 0,
            false,
            (a & 0x0F) as u16 + (src & 0x0F) as u16 + carry as u16 > 0x0F,
            a as u16 + src as u16 + carry as u16 > 0xFF,
        );
    }

    /// Adds a u16 into HL; the zero flag is kept.
    pub fn add_u16_hl(&mut self, src: &mut u16)
        ensures
            *final(src) == *old(src),
            *final(self) == add_hl(*old(self), *old(src)),
    {
        let hl = self.reg_hl.get_pair();
        self.reg_hl.set_pair(hl.wrapping_add(*src));
        let zero = self.get_zero_flag();
        self.write_flags(
            zero,
            false,
            (hl & 0xFFF) as u32 + (*src & 0xFFF) as u32 > 0xFFF,
            hl as u32 + *src as u32 > 0xFFFF,
        );
    }

    /// Increments an unsigned 8-bit value; the carry flag is kept.
    pub fn inc_u8(&mut self, dest: &mut u8)
        ensures
            *final(dest) == inc8(*old(dest), old(self).carry_flag()).result,
            *final(self) == old(self).with_alu_flags(inc8(*old(dest), old(self).carry_flag())),
    {
        let v = *dest;
        *dest = v.wrapping_add(1);
        let carry = self.get_carry_flag();
        self.write_flags(*dest == 0, false, (v & 0x0F) as u16 + 1 > 0x0F, carry);
    }

    /// Decrements an unsigned 8-bit value; the carry flag is kept.
    pub fn dec_u8(&mut self, dest: &mut u8)
        ensures
            *final(dest) == dec8(*old(dest), old(self).carry_flag()).result,
            *final(self) == old(self).with_alu_flags(dec8(*old(dest), old(self).carry_flag())),
    {
        let v = *dest;
        *dest = v.wrapping_sub(1);
        let carry = self.get_carry_flag();
        self.write_flags(*dest == 0, true, (v & 0x0F) < 1, carry);
    }

    /// Subtracts src from register A and stores the difference in A.
    pub fn sub_u8_a(&mut self, src: u8)
        ensures
            *final(self) == old(self).after_alu(sub8(old(self).reg_af.hi, src)),
    {
        let a = self.reg_af.hi;
        let diff = a.wrapping_sub(src);
        self.reg_af.hi = diff;
        self.write_flags(diff == 0, true, (a & 0x0F) < (diff & 0x0F), src > a);
    }

    /// Subtract function with carry bit.
    pub fn sbc_reg_a(&mut self, src: u8)
        ensures
            *final(self) == old(self).after_alu(
                sbc8(old(self).reg_af.hi, src, old(self).carry_flag()),
            ),
    {
        let a = self.reg_af.hi;
        let carry: u8 = if self.get_carry_flag() {
            1
        } else {
            0
        };
        let diff = a.wrapping_sub(src).wrapping_sub(carry);
        self.reg_af.hi = diff;
        self.write_flags(
            diff == 0,
            true,
            ((a & 0x0F) as u16) < (diff & 0x0F) as u16 + carry as u16,
            src as u16 + carry as u16 > a as u16,
        );
    }

    /// Performs a bitwise AND and saves the result in register A.
    pub fn and_reg_a(&mut self, src: u8)
        ensures
            *final(self) == old(self).after_alu(and8(old(self).reg_af.hi, src)),
    {
        let res = self.reg_af.hi & src;
        self.reg_af.hi = res;
        self.write_flags(res == 0, false, true, false);
    }

    /// Performs a bitwise OR and saves the result in register A.
    pub fn or_reg_a(&mut self, src: u8)
        ensures
            *final(self) == old(self).after_alu(or8(old(self).reg_af.hi, src)),
    {
        let res = self.reg_af.hi | src;
        self.reg_af.hi = res;
        self.write_flags(res == 0, false, false, false);
    }

    /// Performs a bitwise XOR and saves the result in register A.
    pub fn xor_reg_a(&mut self, src: u8)
        ensures
            *final(self) == old(self).after_alu(xor8(old(self).reg_af.hi, src)),
    {
        let res = self.reg_af.hi ^ src;
        self.reg_af.hi = res;
        self.write_flags(res == 0, false, false, false);
    }

    /// Compares src to the value in register A: the flags of the
    /// subtraction, with A kept.
    pub fn cp_reg_a(&mut self, src: u8)
        ensures
            *final(self) == old(self).after_alu(cp8(old(self).reg_af.hi, src)),
    {
        let a = self.reg_af.hi;
        self.sub_u8_a(src);
        self.reg_af.hi = a;
    }

    /// Rotates a u8's bits left through the carry.
    pub fn rl_u8(&mut self, src: &mut u8)
        ensures
            *final(src) == rl8(*old(src), old(self).carry_flag()).result,
            *final(self) == old(self).with_alu_flags(rl8(*old(src), old(self).carry_flag())),
    {
        let carry_occurred = *src >= 0x80;
        let carry_in: u8 = if self.get_carry_flag() {
            1
        } else {
            0
        };
        *src = (*src << 1) | carry_in;
        self.write_flags(*src == 0, false, false, carry_occurred);
    }

    /// Rotates a u8's bits left; bit 7 comes round to bit 0.
    pub fn rlc_u8(&mut self, src: &mut u8)
        ensures
            *final(src) == rlc8(*old(src)).result,
            *final(self) == old(self).with_alu_flags(rlc8(*old(src))),
    {
        let carry_occurred = *src >= 0x80;
        *src = (*src << 1) | (*src >> 7);
        self.write_flags(*src == 0, false, false, carry_occurred);
    }

    /// Rotates a u8's bits right through the carry.
    pub fn rr_u8(&mut self, src: &mut u8)
        ensures
            *final(src) == rr8(*old(src), old(self).carry_flag()).result,
            *final(self) == old(self).with_alu_flags(rr8(*old(src), old(self).carry_flag())),
    {
        let carry_occurred = *src % 2 == 1;
        let carry_in: u8 = if self.get_carry_flag() {
            0x80
        } else {
            0
        };
        *src = (*src >> 1) | carry_in;
        self.write_flags(*src == 0, false, false, carry_occurred);
    }

    /// Rotates a u8's bits right; bit 0 comes round to bit 7.
    pub fn rrc_u8(&mut self, src: &mut u8)
        ensures
            *final(src) == rrc8(*old(src)).result,
            *final(self) == old(self).with_alu_flags(rrc8(*old(src))),
    {
        let carry_occurred = *src % 2 == 1;
        *src = (*src >> 1) | (*src << 7);
        self.write_flags(*src == 0, false, false, carry_occurred);
    }
}

} // verus!
