use vstd::prelude::*;
use crate::instructions::{
    bit_is_set, reset_bit, set_bit, test_bit, with_bit, wrapping_inc16,
};
use crate::memory::Memory;
use crate::register_pair::RegisterPair;
use crate::semantics::{call, machine, offset16, pop16, push16, stack_top, word_at, AluOut};

verus! {

/// Bit of the flag register that holds the zero flag.
pub const ZERO_FLAG: u8 = 7;

/// Bit of the flag register that holds the subtract flag.
pub const SUBTRACT_FLAG: u8 = 6;

/// Bit of the flag register that holds the half-carry flag.
pub const HALF_CARRY_FLAG: u8 = 5;

/// Bit of the flag register that holds the carry flag.
pub const CARRY_FLAG: u8 = 4;

/// The flag register `f` with its four flags replaced and its low nibble
/// kept.
pub open spec fn flag_bits(zero: bool, subtract: bool, half_carry: bool, carry: bool, f: u8) -> u8 {
    with_bit(
        with_bit(with_bit(with_bit(f, ZERO_FLAG, zero), SUBTRACT_FLAG, subtract), HALF_CARRY_FLAG, half_carry),
        CARRY_FLAG,
        carry,
    )
}

/// The processor's register file and control state.
#[derive(Clone, Copy, Debug, PartialEq, Eq, Structural)]
pub struct Cpu {
    /// Accumulator (`hi`) and flags (`lo`).
    pub reg_af: RegisterPair,
    pub reg_bc: RegisterPair,
    pub reg_de: RegisterPair,
    pub reg_hl: RegisterPair,
    /// Stack pointer.
    pub reg_sp: RegisterPair,
    /// Program counter.
    pub reg_pc: u16,
    /// Master interrupt switch.
    pub interrupts_enabled: bool,
    /// While set, a step fetches nothing and only spends cycles.
    pub halted: bool,
}

impl Cpu {
    pub open spec fn zero_flag(self) -> bool {
        bit_is_set(self.reg_af.lo, ZERO_FLAG)
    }

    pub open spec fn subtract_flag(self) -> bool {
        bit_is_set(self.reg_af.lo, SUBTRACT_FLAG)
    }

    pub open spec fn half_carry_flag(self) -> bool {
        bit_is_set(self.reg_af.lo, HALF_CARRY_FLAG)
    }

    pub open spec fn carry_flag(self) -> bool {
        bit_is_set(self.reg_af.lo, CARRY_FLAG)
    }

    pub open spec fn with_pc(self, pc: u16) -> Cpu {
        Cpu { reg_pc: pc, ..self }
    }

    pub open spec fn with_sp(self, sp: u16) -> Cpu {
        Cpu { reg_sp: RegisterPair::from_value(sp), ..self }
    }

    pub open spec fn with_hl(self, hl: u16) -> Cpu {
        Cpu { reg_hl: RegisterPair::from_value(hl), ..self }
    }

    pub open spec fn with_a(self, a: u8) -> Cpu {
        Cpu { reg_af: RegisterPair { hi: a, ..self.reg_af }, ..self }
    }

    pub open spec fn with_f(self, f: u8) -> Cpu {
        Cpu { reg_af: RegisterPair { lo: f, ..self.reg_af }, ..self }
    }

    pub open spec fn with_flags(self, zero: bool, subtract: bool, half_carry: bool, carry: bool) -> Cpu {
        self.with_f(flag_bits(zero, subtract, half_carry, carry, self.reg_af.lo))
    }

    /// The flags of `out` written to the flag register.
    pub open spec fn with_alu_flags(self, out: AluOut) -> Cpu {
        self.with_flags(out.zero, out.subtract, out.half_carry, out.carry)
    }

    /// The result of `out` in the accumulator and its flags in the flag
    /// register.
    pub open spec fn after_alu(self, out: AluOut) -> Cpu {
        self.with_a(out.result).with_alu_flags(out)
    }

    /// The register file after power-on and the boot program.
    pub open spec fn power_on() -> Cpu {
        Cpu {
            reg_af: RegisterPair::from_value(0x01B0),
            reg_bc: RegisterPair::from_value(0x0013),
            reg_de: RegisterPair::from_value(0x00D8),
            reg_hl: RegisterPair::from_value(0x014D),
            reg_sp: RegisterPair::from_value(0xFFFE),
            reg_pc: 0x0100,
            interrupts_enabled: false,
            halted: false,
        }
    }

    pub fn new() -> (r: Cpu)
        ensures
            r == Cpu::power_on(),
    {
        Cpu {
            reg_af: RegisterPair::new(0x01B0),
            reg_bc: RegisterPair::new(0x0013),
            reg_de: RegisterPair::new(0x00D8),
            reg_hl: RegisterPair::new(0x014D),
            reg_sp: RegisterPair::new(0xFFFE),
            reg_pc: 0x0100,
            interrupts_enabled: false,
            halted: false,
        }
    }

    /// Returns the byte at the program counter and moves past it.
    pub fn get_byte(&mut self, mem: &Memory) -> (r: u8)
        requires
            mem.wf(),
        ensures
            r == mem@[old(self).reg_pc as int],
            *final(self) == old(self).with_pc(wrapping_inc16(old(self).reg_pc)),
    {
        let byte = mem.read_memory(self.reg_pc);
        self.reg_pc = self.reg_pc.wrapping_add(1);
        byte
    }

    /// Returns the little-endian word at the program counter and moves past
    /// it.
    pub fn get_word(&mut self, mem: &Memory) -> (r: u16)
        requires
            mem.wf(),
        ensures
            r == word_at(mem@, old(self).reg_pc),
            *final(self) == old(self).with_pc(offset16(old(self).reg_pc, 2)),
    {
        let byte_lo = mem.read_memory(self.reg_pc);
        let byte_hi = mem.read_memory(self.reg_pc.wrapping_add(1));
        assert(((byte_hi as u16) << 8u16) | (byte_lo as u16) == byte_lo as int + 256
            * byte_hi as int) by (bit_vector);
        let word = ((byte_hi as u16) << 8) | (byte_lo as u16);
        self.reg_pc = self.reg_pc.wrapping_add(2);
        word
    }

    pub fn get_reg_pc(&self) -> (r: u16)
        ensures
            r == self.reg_pc,
    {
        self.reg_pc
    }

    pub fn set_reg_pc(&mut self, reg_pc: u16)
        ensures
            *final(self) == old(self).with_pc(reg_pc),
    {
        self.reg_pc = reg_pc;
    }

    pub fn set_halted(&mut self, halted: bool)
        ensures
            *final(self) == (Cpu { halted, ..*old(self) }),
    {
        self.halted = halted;
    }

    pub fn get_interrupts_enabled(&self) -> (r: bool)
        ensures
            r == self.interrupts_enabled,
    {
        self.interrupts_enabled
    }

    pub fn set_interrupts_enabled(&mut self, interrupts_enabled: bool)
        ensures
            *final(self) == (Cpu { interrupts_enabled, ..*old(self) }),
    {
        self.interrupts_enabled = interrupts_enabled;
    }

    /// Pushes a word onto the stack.
    pub fn stack_push(&mut self, mem: &mut Memory, val: u16)
        requires
            old(mem).wf(),
        ensures
            final(mem).wf(),
            machine(*final(self), final(mem)@) == push16(machine(*old(self), old(mem)@), val),
    {
        let prev = self.reg_sp.get_pair();
        let val_hi = (val >> 8) as u8;
        let val_lo = (val & 0xFF) as u8;
        assert(val_hi == val / 256 && val_lo == val % 256) by (bit_vector)
            requires
                val_hi == (val >> 8u16) as u8,
                val_lo == (val & 0xFFu16) as u8,
        ;
        self.reg_sp.set_pair(prev.wrapping_sub(1));
        mem.write_memory(self.reg_sp.get_pair(), val_lo);
        self.reg_sp.set_pair(prev.wrapping_sub(2));
        mem.write_memory(self.reg_sp.get_pair(), val_hi);
    }

    /// Pops a word off the stack.
    pub fn stack_pop(&mut self, mem: &Memory) -> (r: u16)
        requires
            mem.wf(),
        ensures
            r == stack_top(machine(*old(self), mem@)),
            *final(self) == pop16(machine(*old(self), mem@)).cpu,
    {
        let prev = self.reg_sp.get_pair();
        let hi = mem.read_memory(prev);
        let lo = mem.read_memory(prev.wrapping_add(1));
        assert(((hi as u16) << 8u16) | (lo as u16) == hi as int * 256 + lo as int) by (bit_vector);
        let word = ((hi as u16) << 8) | (lo as u16);
        self.reg_sp.set_pair(prev.wrapping_add(2));
        word
    }

    /// Calls a subroutine at a given address: pushes the program counter
    /// and jumps.
    pub fn call_routine(&mut self, mem: &mut Memory, address: u16)
        requires
            old(mem).wf(),
        ensures
            final(mem).wf(),
            machine(*final(self), final(mem)@) == call(machine(*old(self), old(mem)@), address),
    {
        let pc = self.reg_pc;
        self.stack_push(mem, pc);
        self.reg_pc = address;
    }

    /// Updates the bit for the zero flag.
    pub fn update_zero_flag(&mut self, result: u8)
        ensures
            *final(self) == old(self).with_f(with_bit(old(self).reg_af.lo, ZERO_FLAG, result == 0)),
    {
        if result == 0 {
            set_bit(&mut self.reg_af.lo, ZERO_FLAG);
        } else {
            reset_bit(&mut self.reg_af.lo, ZERO_FLAG);
        }
    }

    /// Updates the bit for the subtract flag.
    pub fn update_subtract_flag(&mut self, sub_occurred: bool)
        ensures
            *final(self) == old(self).with_f(
                with_bit(old(self).reg_af.lo, SUBTRACT_FLAG, sub_occurred),
            ),
    {
        if sub_occurred {
            set_bit(&mut self.reg_af.lo, SUBTRACT_FLAG);
        } else {
            reset_bit(&mut self.reg_af.lo, SUBTRACT_FLAG);
        }
    }

    /// Updates the bit for the half carry flag.
    pub fn update_half_carry_flag(&mut self, half_carry_occurred: bool)
        ensures
            *final(self) == old(self).with_f(
                with_bit(old(self).reg_af.lo, HALF_CARRY_FLAG, half_carry_occurred),
            ),
    {
        if half_carry_occurred {
            set_bit(&mut self.reg_af.lo, HALF_CARRY_FLAG);
        } else {
            reset_bit(&mut self.reg_af.lo, HALF_CARRY_FLAG);
        }
    }

    /// Updates the bit for the carry flag.
    pub fn update_carry_flag(&mut self, carry_occurred: bool)
        ensures
            *final(self) == old(self).with_f(
                with_bit(old(self).reg_af.lo, CARRY_FLAG, carry_occurred),
            ),
    {
        if carry_occurred {
            set_bit(&mut self.reg_af.lo, CARRY_FLAG);
        } else {
            reset_bit(&mut self.reg_af.lo, CARRY_FLAG);
        }
    }

    /// Writes all four flags.
    pub(crate) fn write_flags(&mut self, zero: bool, subtract: bool, half_carry: bool, carry: bool)
        ensures
            *final(self) == old(self).with_flags(zero, subtract, half_carry, carry),
    {
        self.update_zero_flag(if zero {
            0
        } else {
            1
        });
        self.update_subtract_flag(subtract);
        self.update_half_carry_flag(half_carry);
        self.update_carry_flag(carry);
    }

    pub(crate) fn get_zero_flag(&self) -> (r: bool)
        ensures
            r == self.zero_flag(),
    {
        test_bit(self.reg_af.lo, ZERO_FLAG)
    }

    pub(crate) fn get_carry_flag(&self) -> (r: bool)
        ensures
            r == self.carry_flag(),
    {
        test_bit(self.reg_af.lo, CARRY_FLAG)
    }
}

} // verus!
