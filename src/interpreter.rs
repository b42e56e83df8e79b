//! The instruction interpreter: one step of the processor, proved against
//! [`crate::semantics::step`].
use vstd::prelude::*;
use crate::cpu::Cpu;
use crate::instructions::{dec_reg_pair, inc_reg_pair};
use crate::memory::Memory;
use crate::semantics::{
    alu, block0_col0, block0_col1, block0_col2, block0_col3, block0_col6, block0_col7,
    block0_inc_dec, block3_col0, block3_col1, block3_col2, block3_col4, block3_col5, condition,
    execute_alu, execute_block0, execute_block3, execute_extended, execute_load, is_defined_opcode,
    jump_relative, machine, offset16, reg16, reg8, ret, signed8, stack_reg16, step, with_reg16,
    with_reg8, with_sp_offset_flags, with_stack_reg16,
};

verus! {

/// `base` moved by the signed displacement `e`, wrapping around.
fn offset_signed(base: u16, e: u8) -> (r: u16)
    ensures
        r == offset16(base, signed8(e)),
{
    if e < 0x80 {
        base.wrapping_add(e as u16)
    } else {
        base.wrapping_sub(0x100 - e as u16)
    }
}

/// Whether `op` is the first byte of an instruction.
pub fn opcode_is_defined(op: u8) -> (r: bool)
    ensures
        r == is_defined_opcode(op),
{
    !(op == 0xD3 || op == 0xDB || op == 0xDD || op == 0xE3 || op == 0xE4 || op == 0xEB || op
        == 0xEC || op == 0xED || op == 0xF4 || op == 0xFC || op == 0xFD)
}

impl Cpu {
    /// Moves the PC and executes the next opcode, then returns the number
    /// of cycles it took. A halted processor only spends four cycles.
    pub fn interpret_opcode(&mut self, mem: &mut Memory) -> (r: i32)
        requires
            old(mem).wf(),
            !old(self).halted ==> is_defined_opcode(old(mem)@[old(self).reg_pc as int]),
        ensures
            final(mem).wf(),
            (machine(*final(self), final(mem)@), r) == step(machine(*old(self), old(mem)@)),
            old(self).halted ==> r == 4 && *final(self) == *old(self) && final(mem)@ == old(
                mem,
            )@,
    {
        proof {
            reveal(step);
        }
        if self.halted {
            return 4;
        }
        let opcode = self.get_byte(mem);
        if opcode < 0x40 {
            self.execute_block0(mem, opcode)
        } else if opcode < 0x80 {
            self.execute_load(mem, opcode)
        } else if opcode < 0xC0 {
            self.execute_alu(mem, opcode)
        } else {
            self.execute_block3(mem, opcode)
        }
    }

    /// Executes an instruction of the prefixed table. Its first eight
    /// entries rotate an operand left; the others only report their cost.
    pub fn extended_instruction(&mut self, mem: &mut Memory) -> (r: i32)
        requires
            old(mem).wf(),
        ensures
            final(mem).wf(),
            (machine(*final(self), final(mem)@), r) == execute_extended(
                machine(*old(self), old(mem)@),
            ),
    {
        let opcode = self.get_byte(mem);
        let cost: i32 = if opcode % 8 == 6 {
            16
        } else {
            8
        };
        if opcode < 8 {
            let mut v = self.read_reg8(mem, opcode);
            self.rlc_u8(&mut v);
            self.write_reg8(mem, opcode, v);
        }
        cost
    }

    fn read_reg8(&self, mem: &Memory, r: u8) -> (v: u8)
        requires
            mem.wf(),
        ensures
            v == reg8(machine(*self, mem@), r),
    {
        if r == 0 {
            self.reg_bc.hi
        } else if r == 1 {
            self.reg_bc.lo
        } else if r == 2 {
            self.reg_de.hi
        } else if r == 3 {
            self.reg_de.lo
        } else if r == 4 {
            self.reg_hl.hi
        } else if r == 5 {
            self.reg_hl.lo
        } else if r == 6 {
            mem.read_memory(self.reg_hl.get_pair())
        } else {
            self.reg_af.hi
        }
    }

    fn write_reg8(&mut self, mem: &mut Memory, r: u8, v: u8)
        requires
            old(mem).wf(),
        ensures
            final(mem).wf(),
            machine(*final(self), final(mem)@) == with_reg8(machine(*old(self), old(mem)@), r, v),
    {
        if r == 0 {
            self.reg_bc.hi = v;
        } else if r == 1 {
            self.reg_bc.lo = v;
        } else if r == 2 {
            self.reg_de.hi = v;
        } else if r == 3 {
            self.reg_de.lo = v;
        } else if r == 4 {
            self.reg_hl.hi = v;
        } else if r == 5 {
            self.reg_hl.lo = v;
        } else if r == 6 {
            mem.write_memory(self.reg_hl.get_pair(), v);
        } else {
            self.reg_af.hi = v;
        }
    }

    fn read_reg16(&self, p: u8) -> (v: u16)
        ensures
            v == reg16(*self, p),
    {
        if p == 0 {
            self.reg_bc.get_pair()
        } else if p == 1 {
            self.reg_de.get_pair()
        } else if p == 2 {
            self.reg_hl.get_pair()
        } else {
            self.reg_sp.get_pair()
        }
    }

    fn write_reg16(&mut self, p: u8, v: u16)
        ensures
            *final(self) == with_reg16(*old(self), p, v),
    {
        if p == 0 {
            self.reg_bc.set_pair(v);
        } else if p == 1 {
            self.reg_de.set_pair(v);
        } else if p == 2 {
            self.reg_hl.set_pair(v);
        } else {
            self.reg_sp.set_pair(v);
        }
    }

    fn read_stack_reg16(&self, p: u8) -> (v: u16)
        ensures
            v == stack_reg16(*self, p),
    {
        if p == 3 {
            self.reg_af.get_pair()
        } else {
            self.read_reg16(p)
        }
    }

    fn write_stack_reg16(&mut self, p: u8, v: u16)
        ensures
            *final(self) == with_stack_reg16(*old(self), p, v),
    {
        if p == 3 {
            self.reg_af.set_pair(v);
        } else {
            self.write_reg16(p, v);
        }
    }

    fn condition(&self, cc: u8) -> (r: bool)
        ensures
            r == condition(*self, cc),
    {
        if cc == 0 {
            !self.get_zero_flag()
        } else if cc == 1 {
            self.get_zero_flag()
        } else if cc == 2 {
            !self.get_carry_flag()
        } else {
            self.get_carry_flag()
        }
    }

    /// Combines the accumulator with `v` by operation `op` of the
    /// arithmetic and logic group.
    fn alu_a(&mut self, op: u8, v: u8)
        ensures
            *final(self) == old(self).after_alu(
                alu(op, old(self).reg_af.hi, v, old(self).carry_flag()),
            ),
    {
        if op == 0 {
            self.add_u8_a(v);
        } else if op == 1 {
            self.adc_reg_a(v);
        } else if op == 2 {
            self.sub_u8_a(v);
        } else if op == 3 {
            self.sbc_reg_a(v);
        } else if op == 4 {
            self.and_reg_a(v);
        } else if op == 5 {
            self.xor_reg_a(v);
        } else if op == 6 {
            self.or_reg_a(v);
        } else {
            self.cp_reg_a(v);
        }
    }

    fn jump_relative(&mut self, mem: &Memory)
        requires
            mem.wf(),
        ensures
            machine(*final(self), mem@) == jump_relative(machine(*old(self), mem@)),
    {
        let e = self.get_byte(mem);
        self.reg_pc = offset_signed(self.reg_pc, e);
    }

    fn ret(&mut self, mem: &Memory)
        requires
            mem.wf(),
        ensures
            machine(*final(self), mem@) == ret(machine(*old(self), mem@)),
    {
        let target = self.stack_pop(mem);
        self.reg_pc = target;
    }

    fn sp_offset_flags(&mut self, e: u8)
        ensures
            *final(self) == with_sp_offset_flags(*old(self), e),
    {
        let sp = self.reg_sp.get_pair();
        self.write_flags(
            false,
            false,
            (e & 0x0F) as u32 + (sp & 0x0F) as u32 > 0x0F,
            e as u32 + (sp & 0xFF) as u32 > 0xFF,
        );
    }

    fn block0_col0(&mut self, mem: &mut Memory, y: u8) -> (r: i32)
        requires
            old(mem).wf(),
            y < 8,
        ensures
            final(mem).wf(),
            (machine(*final(self), final(mem)@), r) == block0_col0(
                machine(*old(self), old(mem)@),
                y,
            ),
    {
        if y == 0 || y == 2 {
            4
        } else if y == 1 {
            let address = self.get_word(mem);
            mem.write_memory(address, self.reg_sp.lo);
            mem.write_memory(address.wrapping_add(1), self.reg_sp.hi);
            20
        } else if y == 3 {
            self.jump_relative(mem);
            12
        } else if self.condition(y - 4) {
            self.jump_relative(mem);
            12
        } else {
            self.reg_pc = self.reg_pc.wrapping_add(1);
            8
        }
    }

    fn block0_col1(&mut self, mem: &mut Memory, y: u8) -> (r: i32)
        requires
            old(mem).wf(),
        ensures
            final(mem).wf(),
            (machine(*final(self), final(mem)@), r) == block0_col1(
                machine(*old(self), old(mem)@),
                y,
            ),
    {
        let p = y / 2;
        if y % 2 == 0 {
            let v = self.get_word(mem);
            self.write_reg16(p, v);
            12
        } else {
            let mut v = self.read_reg16(p);
            self.add_u16_hl(&mut v);
            8
        }
    }

    fn block0_col2(&mut self, mem: &mut Memory, y: u8) -> (r: i32)
        requires
            old(mem).wf(),
        ensures
            final(mem).wf(),
            (machine(*final(self), final(mem)@), r) == block0_col2(
                machine(*old(self), old(mem)@),
                y,
            ),
    {
        let p = y / 2;
        let address = if p == 0 {
            self.reg_bc.get_pair()
        } else if p == 1 {
            self.reg_de.get_pair()
        } else {
            self.reg_hl.get_pair()
        };
        if y % 2 == 0 {
            mem.write_memory(address, self.reg_af.hi);
        } else {
            self.reg_af.hi = mem.read_memory(address);
        }
        if p == 2 {
            inc_reg_pair(&mut self.reg_hl);
        } else if p == 3 {
            dec_reg_pair(&mut self.reg_hl);
        }
        8
    }

    fn block0_col3(&mut self, y: u8) -> (r: i32)
        ensures
            (*final(self), r) == ({
                let (t, cycles) = block0_col3(machine(*old(self), Seq::empty()), y);
                (t.cpu, cycles)
            }),
    {
        let p = y / 2;
        let v = self.read_reg16(p);
        let n = if y % 2 == 0 {
            v.wrapping_add(1)
        } else {
            v.wrapping_sub(1)
        };
        self.write_reg16(p, n);
        8
    }

    fn block0_inc_dec(&mut self, mem: &mut Memory, y: u8, dec: bool) -> (r: i32)
        requires
            old(mem).wf(),
        ensures
            final(mem).wf(),
            (machine(*final(self), final(mem)@), r) == block0_inc_dec(
                machine(*old(self), old(mem)@),
                y,
                dec,
            ),
    {
        let mut v = self.read_reg8(mem, y);
        if dec {
            self.dec_u8(&mut v);
        } else {
            self.inc_u8(&mut v);
        }
        self.write_reg8(mem, y, v);
        if y == 6 {
            12
        } else {
            4
        }
    }

    fn block0_col6(&mut self, mem: &mut Memory, y: u8) -> (r: i32)
        requires
            old(mem).wf(),
        ensures
            final(mem).wf(),
            (machine(*final(self), final(mem)@), r) == block0_col6(
                machine(*old(self), old(mem)@),
                y,
            ),
    {
        let n = self.get_byte(mem);
        self.write_reg8(mem, y, n);
        if y == 6 {
            12
        } else {
            8
        }
    }

    fn block0_col7(&mut self, y: u8) -> (r: i32)
        requires
            y < 8,
        ensures
            (*final(self), r) == ({
                let (t, cycles) = block0_col7(machine(*old(self), Seq::empty()), y);
                (t.cpu, cycles)
            }),
    {
        let mut a = self.reg_af.hi;
        if y == 0 {
            self.rlc_u8(&mut a);
            self.reg_af.hi = a;
        } else if y == 1 {
            self.rrc_u8(&mut a);
            self.reg_af.hi = a;
        } else if y == 2 {
            self.rl_u8(&mut a);
            self.reg_af.hi = a;
        } else if y == 3 {
            self.rr_u8(&mut a);
            self.reg_af.hi = a;
        } else if y == 5 {
            self.reg_af.hi = !a;
            let zero = self.get_zero_flag();
            let carry = self.get_carry_flag();
            self.write_flags(zero, true, true, carry);
        } else if y == 6 {
            let zero = self.get_zero_flag();
            self.write_flags(zero, false, false, true);
        } else if y == 7 {
            let zero = self.get_zero_flag();
            let carry = self.get_carry_flag();
            self.write_flags(zero, false, false, !carry);
        }
        4
    }

    fn execute_block0(&mut self, mem: &mut Memory, op: u8) -> (r: i32)
        requires
            old(mem).wf(),
            op < 0x40,
        ensures
            final(mem).wf(),
            (machine(*final(self), final(mem)@), r) == execute_block0(
                machine(*old(self), old(mem)@),
                op,
            ),
    {
        let y = op / 8;
        let z = op % 8;
        if z == 0 {
            self.block0_col0(mem, y)
        } else if z == 1 {
            self.block0_col1(mem, y)
        } else if z == 2 {
            self.block0_col2(mem, y)
        } else if z == 3 {
            self.block0_col3(y)
        } else if z == 4 {
            self.block0_inc_dec(mem, y, false)
        } else if z == 5 {
            self.block0_inc_dec(mem, y, true)
        } else if z == 6 {
            self.block0_col6(mem, y)
        } else {
            self.block0_col7(y)
        }
    }

    fn execute_load(&mut self, mem: &mut Memory, op: u8) -> (r: i32)
        requires
            old(mem).wf(),
        ensures
            final(mem).wf(),
            (machine(*final(self), final(mem)@), r) == execute_load(
                machine(*old(self), old(mem)@),
                op,
            ),
    {
        let y = op / 8 % 8;
        let z = op % 8;
        if op == 0x76 {
            self.halted = true;
            4
        } else {
            let v = self.read_reg8(mem, z);
            self.write_reg8(mem, y, v);
            if y == 6 || z == 6 {
                8
            } else {
                4
            }
        }
    }

    fn execute_alu(&mut self, mem: &mut Memory, op: u8) -> (r: i32)
        requires
            old(mem).wf(),
        ensures
            final(mem).wf(),
            (machine(*final(self), final(mem)@), r) == execute_alu(
                machine(*old(self), old(mem)@),
                op,
            ),
    {
        let y = op / 8 % 8;
        let z = op % 8;
        let v = self.read_reg8(mem, z);
        self.alu_a(y, v);
        if z == 6 {
            8
        } else {
            4
        }
    }

    fn block3_col0(&mut self, mem: &mut Memory, y: u8) -> (r: i32)
        requires
            old(mem).wf(),
        ensures
            final(mem).wf(),
            (machine(*final(self), final(mem)@), r) == block3_col0(
                machine(*old(self), old(mem)@),
                y,
            ),
    {
        if y < 4 {
            if self.condition(y) {
                self.ret(mem);
                20
            } else {
                8
            }
        } else if y == 4 {
            let e = self.get_byte(mem);
            mem.write_memory(0xFF00 + e as u16, self.reg_af.hi);
            12
        } else if y == 5 {
            let sp = self.reg_sp.get_pair();
            let e = self.get_byte(mem);
            self.sp_offset_flags(e);
            self.reg_sp.set_pair(offset_signed(sp, e));
            16
        } else if y == 6 {
            let e = self.get_byte(mem);
            self.reg_af.hi = mem.read_memory(0xFF00 + e as u16);
            12
        } else {
            let sp = self.reg_sp.get_pair();
            let e = self.get_byte(mem);
            self.sp_offset_flags(e);
            self.reg_hl.set_pair(offset_signed(sp, e));
            12
        }
    }

    fn block3_col1(&mut self, mem: &mut Memory, y: u8) -> (r: i32)
        requires
            old(mem).wf(),
        ensures
            final(mem).wf(),
            (machine(*final(self), final(mem)@), r) == block3_col1(
                machine(*old(self), old(mem)@),
                y,
            ),
    {
        let p = y / 2;
        if y % 2 == 0 {
            let v = self.stack_pop(mem);
            let w = if p == 3 {
                v & 0xFFF0
            } else {
                v
            };
            self.write_stack_reg16(p, w);
            12
        } else if p == 0 {
            self.ret(mem);
            16
        } else if p == 1 {
            self.ret(mem);
            self.interrupts_enabled = true;
            16
        } else if p == 2 {
            self.reg_pc = self.reg_hl.get_pair();
            4
        } else {
            let hl = self.reg_hl.get_pair();
            self.reg_sp.set_pair(hl);
            8
        }
    }

    fn block3_col2(&mut self, mem: &mut Memory, y: u8) -> (r: i32)
        requires
            old(mem).wf(),
        ensures
            final(mem).wf(),
            (machine(*final(self), final(mem)@), r) == block3_col2(
                machine(*old(self), old(mem)@),
                y,
            ),
    {
        if y < 4 {
            if self.condition(y) {
                self.reg_pc = self.get_word(mem);
                16
            } else {
                self.reg_pc = self.reg_pc.wrapping_add(2);
                12
            }
        } else if y == 4 {
            mem.write_memory(0xFF00 + self.reg_bc.lo as u16, self.reg_af.hi);
            8
        } else if y == 5 {
            let address = self.get_word(mem);
            mem.write_memory(address, self.reg_af.hi);
            16
        } else if y == 6 {
            self.reg_af.hi = mem.read_memory(0xFF00 + self.reg_bc.lo as u16);
            8
        } else {
            let address = self.get_word(mem);
            self.reg_af.hi = mem.read_memory(address);
            16
        }
    }

    fn block3_col4(&mut self, mem: &mut Memory, y: u8) -> (r: i32)
        requires
            old(mem).wf(),
        ensures
            final(mem).wf(),
            (machine(*final(self), final(mem)@), r) == block3_col4(
                machine(*old(self), old(mem)@),
                y,
            ),
    {
        if self.condition(y) {
            let target = self.get_word(mem);
            self.call_routine(mem, target);
            24
        } else {
            self.reg_pc = self.reg_pc.wrapping_add(2);
            12
        }
    }

    fn block3_col5(&mut self, mem: &mut Memory, y: u8) -> (r: i32)
        requires
            old(mem).wf(),
        ensures
            final(mem).wf(),
            (machine(*final(self), final(mem)@), r) == block3_col5(
                machine(*old(self), old(mem)@),
                y,
            ),
    {
        if y % 2 == 0 {
            let v = self.read_stack_reg16(y / 2);
            self.stack_push(mem, v);
            16
        } else {
            let target = self.get_word(mem);
            self.call_routine(mem, target);
            24
        }
    }

    fn execute_block3(&mut self, mem: &mut Memory, op: u8) -> (r: i32)
        requires
            old(mem).wf(),
            op >= 0xC0,
        ensures
            final(mem).wf(),
            (machine(*final(self), final(mem)@), r) == execute_block3(
                machine(*old(self), old(mem)@),
                op,
            ),
    {
        let y = op / 8 % 8;
        let z = op % 8;
        if z == 0 {
            self.block3_col0(mem, y)
        } else if z == 1 {
            self.block3_col1(mem, y)
        } else if z == 2 {
            self.block3_col2(mem, y)
        } else if z == 3 {
            if y == 0 {
                self.reg_pc = self.get_word(mem);
                16
            } else if y == 1 {
                self.extended_instruction(mem)
            } else if y == 6 {
                self.interrupts_enabled = false;
                4
            } else {
                self.interrupts_enabled = true;
                4
            }
        } else if z == 4 {
            self.block3_col4(mem, y)
        } else if z == 5 {
            self.block3_col5(mem, y)
        } else if z == 6 {
            let n = self.get_byte(mem);
            self.alu_a(y, n);
            8
        } else {
            self.call_routine(mem, y as u16 * 8);
            16
        }
    }
}

} // verus!
