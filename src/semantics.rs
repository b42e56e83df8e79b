//! The instruction model: what one processor step does to the registers
//! and to memory, and what it costs.
use vstd::prelude::*;
use crate::cpu::{flag_bits, Cpu};
use crate::instructions::{with_bit, wrapping_dec16, wrapping_inc16};
use crate::register_pair::RegisterPair;

verus! {

/// The outcome of an 8-bit arithmetic or logic operation: the result byte
/// and the four flags it leaves.
pub struct AluOut {
    pub result: u8,
    pub zero: bool,
    pub subtract: bool,
    pub half_carry: bool,
    pub carry: bool,
}

/// One when `carry` is set, zero otherwise.
pub open spec fn carry_value(carry: bool) -> int {
    if carry {
        1
    } else {
        0
    }
}

/// Addition: carries out of bit 3 and bit 7.
pub open spec fn add8(a: u8, v: u8) -> AluOut {
    let r = ((a + v) % 256) as u8;
    AluOut {
        result: r,
        zero: r == 0,
        subtract: false,
        half_carry: (a & 0x0F) + (v & 0x0F) > 0x0F,
        carry: a + v > 0xFF,
    }
}

/// Addition of `v` and the incoming carry.
pub open spec fn adc8(a: u8, v: u8, carry_in: bool) -> AluOut {
    let ci = carry_value(carry_in);
    let r = ((a + v + ci) % 256) as u8;
    AluOut {
        result: r,
        zero: r == 0,
        subtract: false,
        half_carry: (a & 0x0F) + (v & 0x0F) + ci > 0x0F,
        carry: a + v + ci > 0xFF,
    }
}

/// Subtraction: half-carry when the low nibble of the result exceeds that
/// of `a`, carry when `v` exceeds `a`.
pub open spec fn sub8(a: u8, v: u8) -> AluOut {
    let r = ((a - v) % 256) as u8;
    AluOut {
        result: r,
        zero: r == 0,
        subtract: true,
        half_carry: (a & 0x0F) < (r & 0x0F),
        carry: v > a,
    }
}

/// Subtraction of `v` and the incoming carry; carry on an unsigned borrow.
pub open spec fn sbc8(a: u8, v: u8, carry_in: bool) -> AluOut {
    let ci = carry_value(carry_in);
    let r = ((a - v - ci) % 256) as u8;
    AluOut {
        result: r,
        zero: r == 0,
        subtract: true,
        half_carry: (a & 0x0F) < (r & 0x0F) + ci,
        carry: v + ci > a,
    }
}

/// Bitwise AND: half-carry set, carry cleared.
pub open spec fn and8(a: u8, v: u8) -> AluOut {
    let r = a & v;
    AluOut { result: r, zero: r == 0, subtract: false, half_carry: true, carry: false }
}

/// Bitwise OR: half-carry and carry cleared.
pub open spec fn or8(a: u8, v: u8) -> AluOut {
    let r = a | v;
    AluOut { result: r, zero: r == 0, subtract: false, half_carry: false, carry: false }
}

/// Bitwise XOR: half-carry and carry cleared.
pub open spec fn xor8(a: u8, v: u8) -> AluOut {
    let r = a ^ v;
    AluOut { result: r, zero: r == 0, subtract: false, half_carry: false, carry: false }
}

/// A comparison sets the flags of the subtraction and keeps `a`.
pub open spec fn cp8(a: u8, v: u8) -> AluOut {
    AluOut { result: a, ..sub8(a, v) }
}

/// Increment; the carry flag is passed through unchanged.
pub open spec fn inc8(v: u8, carry: bool) -> AluOut {
    let r = ((v + 1) % 256) as u8;
    AluOut { result: r, zero: r == 0, subtract: false, half_carry: (v & 0x0F) + 1 > 0x0F, carry }
}

/// Decrement; the carry flag is passed through unchanged.
pub open spec fn dec8(v: u8, carry: bool) -> AluOut {
    let r = ((v - 1) % 256) as u8;
    AluOut { result: r, zero: r == 0, subtract: true, half_carry: (v & 0x0F) < 1, carry }
}

/// Rotation left; bit 7 goes to bit 0 and to the carry.
pub open spec fn rlc8(v: u8) -> AluOut {
    let r = (v << 1u8) | (v >> 7u8);
    AluOut { result: r, zero: r == 0, subtract: false, half_carry: false, carry: v >= 0x80 }
}

/// Rotation left through the carry.
pub open spec fn rl8(v: u8, carry_in: bool) -> AluOut {
    let r = (v << 1u8) | (if carry_in {
        1u8
    } else {
        0u8
    });
    AluOut { result: r, zero: r == 0, subtract: false, half_carry: false, carry: v >= 0x80 }
}

/// Rotation right; bit 0 goes to bit 7 and to the carry.
pub open spec fn rrc8(v: u8) -> AluOut {
    let r = (v >> 1u8) | (v << 7u8);
    AluOut { result: r, zero: r == 0, subtract: false, half_carry: false, carry: v % 2 == 1 }
}

/// Rotation right through the carry.
pub open spec fn rr8(v: u8, carry_in: bool) -> AluOut {
    let r = (v >> 1u8) | (if carry_in {
        0x80u8
    } else {
        0u8
    });
    AluOut { result: r, zero: r == 0, subtract: false, half_carry: false, carry: v % 2 == 1 }
}

/// The processor together with the memory it works on.
pub struct Machine {
    pub cpu: Cpu,
    pub mem: Seq<u8>,
}

/// The state made of `cpu` and `mem`.
pub open spec fn machine(cpu: Cpu, mem: Seq<u8>) -> Machine {
    Machine { cpu, mem }
}

/// `base` moved by `delta`, wrapping around the 16-bit address space.
pub open spec fn offset16(base: u16, delta: int) -> u16 {
    ((base + delta) % 0x10000) as u16
}

/// The little-endian word stored at `address` and the address after it.
pub open spec fn word_at(mem: Seq<u8>, address: u16) -> u16 {
    (mem[address as int] as int + 256 * mem[wrapping_inc16(address) as int] as int) as u16
}

/// The state after a push of `value`: the low byte lands just below the
/// old stack pointer, the high byte below that, and the stack pointer
/// moves down by two.
pub open spec fn push16(s: Machine, value: u16) -> Machine {
    let sp1 = wrapping_dec16(s.cpu.reg_sp.value());
    let sp2 = wrapping_dec16(sp1);
    Machine {
        cpu: s.cpu.with_sp(sp2),
        mem: s.mem.update(sp1 as int, (value % 256) as u8).update(sp2 as int, (value / 256) as u8),
    }
}

/// The word a pop returns: the byte at the stack pointer is the high byte,
/// the byte above it the low byte.
pub open spec fn stack_top(s: Machine) -> u16 {
    let sp = s.cpu.reg_sp.value();
    (s.mem[sp as int] as int * 256 + s.mem[wrapping_inc16(sp) as int] as int) as u16
}

/// The state after a pop: the stack pointer moves up by two.
pub open spec fn pop16(s: Machine) -> Machine {
    Machine { cpu: s.cpu.with_sp(offset16(s.cpu.reg_sp.value(), 2)), ..s }
}

/// A pop after a push returns the pushed word and puts the stack pointer
/// back where it was.
pub proof fn lemma_stack_round_trip(s: Machine, value: u16)
    requires
        s.mem.len() == 0x10000,
    ensures
        stack_top(push16(s, value)) == value,
        pop16(push16(s, value)).cpu == s.cpu,
{
    let sp = s.cpu.reg_sp.value();
    let sp1 = wrapping_dec16(sp);
    let sp2 = wrapping_dec16(sp1);
    assert(wrapping_inc16(sp2) == sp1);
    assert(offset16(sp2, 2) == sp);
    let t = push16(s, value);
    assert(t.mem[sp2 as int] == (value / 256) as u8);
    assert(t.mem[sp1 as int] == (value % 256) as u8);
    assert(pop16(t).cpu.reg_sp == s.cpu.reg_sp);
}


/// A displacement byte read as a signed number.
pub open spec fn signed8(e: u8) -> int {
    if e < 0x80 {
        e as int
    } else {
        e - 0x100
    }
}

/// Whether a byte is the first byte of an instruction: eleven values are
/// assigned to none.
pub open spec fn is_defined_opcode(op: u8) -> bool {
    !(op == 0xD3 || op == 0xDB || op == 0xDD || op == 0xE3 || op == 0xE4 || op == 0xEB || op
        == 0xEC || op == 0xED || op == 0xF4 || op == 0xFC || op == 0xFD)
}

/// HL plus `v`; the zero flag is kept.
pub open spec fn add_hl(c: Cpu, v: u16) -> Cpu {
    let hl = c.reg_hl.value();
    c.with_hl(((hl + v) % 0x10000) as u16).with_flags(
        c.zero_flag(),
        false,
        (hl & 0xFFF) + (v & 0xFFF) > 0xFFF,
        hl + v > 0xFFFF,
    )
}

/// The eight operations of the arithmetic and logic group, in opcode order:
/// ADD, ADC, SUB, SBC, AND, XOR, OR, CP.
pub open spec fn alu(op: u8, a: u8, v: u8, carry: bool) -> AluOut {
    if op == 0 {
        add8(a, v)
    } else if op == 1 {
        adc8(a, v, carry)
    } else if op == 2 {
        sub8(a, v)
    } else if op == 3 {
        sbc8(a, v, carry)
    } else if op == 4 {
        and8(a, v)
    } else if op == 5 {
        xor8(a, v)
    } else if op == 6 {
        or8(a, v)
    } else {
        cp8(a, v)
    }
}

/// The branch conditions in opcode order: NZ, Z, NC, C.
pub open spec fn condition(c: Cpu, cc: u8) -> bool {
    if cc == 0 {
        !c.zero_flag()
    } else if cc == 1 {
        c.zero_flag()
    } else if cc == 2 {
        !c.carry_flag()
    } else {
        c.carry_flag()
    }
}

/// The 8-bit operands in opcode order: B, C, D, E, H, L, the byte at HL, A.
pub open spec fn reg8(s: Machine, r: u8) -> u8 {
    let c = s.cpu;
    if r == 0 {
        c.reg_bc.hi
    } else if r == 1 {
        c.reg_bc.lo
    } else if r == 2 {
        c.reg_de.hi
    } else if r == 3 {
        c.reg_de.lo
    } else if r == 4 {
        c.reg_hl.hi
    } else if r == 5 {
        c.reg_hl.lo
    } else if r == 6 {
        s.mem[c.reg_hl.value() as int]
    } else {
        c.reg_af.hi
    }
}

/// The state with 8-bit operand `r` (as in [`reg8`]) replaced by `v`.
pub open spec fn with_reg8(s: Machine, r: u8, v: u8) -> Machine {
    let c = s.cpu;
    if r == 0 {
        Machine { cpu: Cpu { reg_bc: RegisterPair { hi: v, ..c.reg_bc }, ..c }, ..s }
    } else if r == 1 {
        Machine { cpu: Cpu { reg_bc: RegisterPair { lo: v, ..c.reg_bc }, ..c }, ..s }
    } else if r == 2 {
        Machine { cpu: Cpu { reg_de: RegisterPair { hi: v, ..c.reg_de }, ..c }, ..s }
    } else if r == 3 {
        Machine { cpu: Cpu { reg_de: RegisterPair { lo: v, ..c.reg_de }, ..c }, ..s }
    } else if r == 4 {
        Machine { cpu: Cpu { reg_hl: RegisterPair { hi: v, ..c.reg_hl }, ..c }, ..s }
    } else if r == 5 {
        Machine { cpu: Cpu { reg_hl: RegisterPair { lo: v, ..c.reg_hl }, ..c }, ..s }
    } else if r == 6 {
        Machine { mem: s.mem.update(c.reg_hl.value() as int, v), ..s }
    } else {
        Machine { cpu: c.with_a(v), ..s }
    }
}

/// The register pairs of the load and 16-bit arithmetic groups, in opcode
/// order: BC, DE, HL, SP.
pub open spec fn reg16(c: Cpu, p: u8) -> u16 {
    if p == 0 {
        c.reg_bc.value()
    } else if p == 1 {
        c.reg_de.value()
    } else if p == 2 {
        c.reg_hl.value()
    } else {
        c.reg_sp.value()
    }
}

/// The processor with register pair `p` (as in [`reg16`]) replaced by `v`.
pub open spec fn with_reg16(c: Cpu, p: u8, v: u16) -> Cpu {
    if p == 0 {
        Cpu { reg_bc: RegisterPair::from_value(v), ..c }
    } else if p == 1 {
        Cpu { reg_de: RegisterPair::from_value(v), ..c }
    } else if p == 2 {
        c.with_hl(v)
    } else {
        c.with_sp(v)
    }
}

/// The register pairs of the push and pop group, in opcode order: BC, DE,
/// HL, AF.
pub open spec fn stack_reg16(c: Cpu, p: u8) -> u16 {
    if p == 3 {
        c.reg_af.value()
    } else {
        reg16(c, p)
    }
}

/// The processor with register pair `p` (as in [`stack_reg16`]) replaced
/// by `v`.
pub open spec fn with_stack_reg16(c: Cpu, p: u8, v: u16) -> Cpu {
    if p == 3 {
        Cpu { reg_af: RegisterPair::from_value(v), ..c }
    } else {
        with_reg16(c, p, v)
    }
}

/// The state with its processor replaced by `c`.
pub open spec fn with_cpu(s: Machine, c: Cpu) -> Machine {
    Machine { cpu: c, ..s }
}

/// The byte at the program counter.
pub open spec fn imm8(s: Machine) -> u8 {
    s.mem[s.cpu.reg_pc as int]
}

/// The little-endian word at the program counter.
pub open spec fn imm16(s: Machine) -> u16 {
    word_at(s.mem, s.cpu.reg_pc)
}

/// The state with the program counter moved past `n` operand bytes.
pub open spec fn skip(s: Machine, n: int) -> Machine {
    with_cpu(s, s.cpu.with_pc(offset16(s.cpu.reg_pc, n)))
}

/// A relative jump: the signed displacement at the program counter is
/// added to the address just after it.
pub open spec fn jump_relative(s: Machine) -> Machine {
    let after = offset16(s.cpu.reg_pc, 1);
    with_cpu(s, s.cpu.with_pc(offset16(after, signed8(imm8(s)))))
}

/// A return: the word on top of the stack becomes the program counter.
pub open spec fn ret(s: Machine) -> Machine {
    with_cpu(s, pop16(s).cpu.with_pc(stack_top(s)))
}

/// A call of `target`: the program counter is pushed, then replaced.
pub open spec fn call(s: Machine, target: u16) -> Machine {
    let pushed = push16(s, s.cpu.reg_pc);
    with_cpu(pushed, pushed.cpu.with_pc(target))
}

/// The flags of an 8-bit signed displacement added to the stack pointer:
/// zero and subtract cleared, the carries out of bits 3 and 7.
pub open spec fn with_sp_offset_flags(c: Cpu, e: u8) -> Cpu {
    let sp = c.reg_sp.value();
    c.with_flags(
        false,
        false,
        (e & 0x0Fu8) as int + (sp & 0x0Fu16) as int > 0x0F,
        e as int + (sp & 0xFFu16) as int > 0xFF,
    )
}

/// Opcodes 0x00 to 0x3F whose low three bits are 0: no-ops, a store of
/// SP, and relative jumps.
pub open spec fn block0_col0(s: Machine, y: u8) -> (Machine, i32) {
    if y == 0 || y == 2 {
        (s, 4)
    } else if y == 1 {
        let a = imm16(s);
        let t = skip(s, 2);
        (
            Machine {
                mem: t.mem.update(a as int, s.cpu.reg_sp.lo).update(
                    wrapping_inc16(a) as int,
                    s.cpu.reg_sp.hi,
                ),
                ..t
            },
            20,
        )
    } else if y == 3 {
        (jump_relative(s), 12)
    } else if condition(s.cpu, (y - 4) as u8) {
        (jump_relative(s), 12)
    } else {
        (skip(s, 1), 8)
    }
}

/// Low bits 1: 16-bit immediate loads and additions to HL.
pub open spec fn block0_col1(s: Machine, y: u8) -> (Machine, i32) {
    let p = y / 2;
    if y % 2 == 0 {
        let t = skip(s, 2);
        (with_cpu(t, with_reg16(t.cpu, p, imm16(s))), 12)
    } else {
        (with_cpu(s, add_hl(s.cpu, reg16(s.cpu, p))), 8)
    }
}

/// Low bits 2: the accumulator stored to or loaded from the address in BC,
/// DE, or HL, HL then moving up (y 4, 5) or down (y 6, 7).
pub open spec fn block0_col2(s: Machine, y: u8) -> (Machine, i32) {
    let p = y / 2;
    let c = s.cpu;
    let address = if p == 0 {
        c.reg_bc.value()
    } else if p == 1 {
        c.reg_de.value()
    } else {
        c.reg_hl.value()
    };
    let t = if y % 2 == 0 {
        Machine { mem: s.mem.update(address as int, c.reg_af.hi), ..s }
    } else {
        with_cpu(s, c.with_a(s.mem[address as int]))
    };
    let u = if p == 2 {
        with_cpu(t, t.cpu.with_hl(wrapping_inc16(address)))
    } else if p == 3 {
        with_cpu(t, t.cpu.with_hl(wrapping_dec16(address)))
    } else {
        t
    };
    (u, 8)
}

/// Low bits 3: 16-bit increments and decrements.
pub open spec fn block0_col3(s: Machine, y: u8) -> (Machine, i32) {
    let p = y / 2;
    let v = reg16(s.cpu, p);
    let n = if y % 2 == 0 {
        wrapping_inc16(v)
    } else {
        wrapping_dec16(v)
    };
    (with_cpu(s, with_reg16(s.cpu, p, n)), 8)
}

/// Low bits 4 and 5: 8-bit increments (`dec` false) and decrements.
pub open spec fn block0_inc_dec(s: Machine, y: u8, dec: bool) -> (Machine, i32) {
    let v = reg8(s, y);
    let out = if dec {
        dec8(v, s.cpu.carry_flag())
    } else {
        inc8(v, s.cpu.carry_flag())
    };
    (with_reg8(with_cpu(s, s.cpu.with_alu_flags(out)), y, out.result), if y == 6 {
        12
    } else {
        4
    })
}

/// Low bits 6: 8-bit immediate loads.
pub open spec fn block0_col6(s: Machine, y: u8) -> (Machine, i32) {
    (with_reg8(skip(s, 1), y, imm8(s)), if y == 6 {
        12
    } else {
        8
    })
}

/// Low bits 7: rotations of the accumulator and flag operations; the
/// decimal adjust (y 4) changes nothing.
pub open spec fn block0_col7(s: Machine, y: u8) -> (Machine, i32) {
    let c = s.cpu;
    let a = c.reg_af.hi;
    let n = if y == 0 {
        c.after_alu(rlc8(a))
    } else if y == 1 {
        c.after_alu(rrc8(a))
    } else if y == 2 {
        c.after_alu(rl8(a, c.carry_flag()))
    } else if y == 3 {
        c.after_alu(rr8(a, c.carry_flag()))
    } else if y == 4 {
        c
    } else if y == 5 {
        c.with_a(!a).with_flags(c.zero_flag(), true, true, c.carry_flag())
    } else if y == 6 {
        c.with_flags(c.zero_flag(), false, false, true)
    } else {
        c.with_flags(c.zero_flag(), false, false, !c.carry_flag())
    };
    (with_cpu(s, n), 4)
}

/// Opcodes 0x00 to 0x3F.
pub open spec fn execute_block0(s: Machine, op: u8) -> (Machine, i32) {
    let y = op / 8;
    let z = op % 8;
    if z == 0 {
        block0_col0(s, y)
    } else if z == 1 {
        block0_col1(s, y)
    } else if z == 2 {
        block0_col2(s, y)
    } else if z == 3 {
        block0_col3(s, y)
    } else if z == 4 {
        block0_inc_dec(s, y, false)
    } else if z == 5 {
        block0_inc_dec(s, y, true)
    } else if z == 6 {
        block0_col6(s, y)
    } else {
        block0_col7(s, y)
    }
}

/// Opcodes 0x40 to 0x7F: 8-bit register moves, and HALT in place of the
/// move from the byte at HL to itself.
pub open spec fn execute_load(s: Machine, op: u8) -> (Machine, i32) {
    let y = op / 8 % 8;
    let z = op % 8;
    if op == 0x76 {
        (with_cpu(s, Cpu { halted: true, ..s.cpu }), 4)
    } else {
        (with_reg8(s, y, reg8(s, z)), if y == 6 || z == 6 {
            8
        } else {
            4
        })
    }
}

/// Opcodes 0x80 to 0xBF: the accumulator combined with an 8-bit operand.
pub open spec fn execute_alu(s: Machine, op: u8) -> (Machine, i32) {
    let y = op / 8 % 8;
    let z = op % 8;
    let out = alu(y, s.cpu.reg_af.hi, reg8(s, z), s.cpu.carry_flag());
    (with_cpu(s, s.cpu.after_alu(out)), if z == 6 {
        8
    } else {
        4
    })
}

/// Opcodes 0xC0 to 0xFF whose low three bits are 0: conditional returns,
/// high-page stores and loads, and stack pointer offsets.
pub open spec fn block3_col0(s: Machine, y: u8) -> (Machine, i32) {
    let c = s.cpu;
    let e = imm8(s);
    let t = skip(s, 1);
    if y < 4 {
        if condition(c, y) {
            (ret(s), 20)
        } else {
            (s, 8)
        }
    } else if y == 4 {
        (Machine { mem: t.mem.update(0xFF00 + e, c.reg_af.hi), ..t }, 12)
    } else if y == 5 {
        let sp = offset16(c.reg_sp.value(), signed8(e));
        (with_cpu(t, with_sp_offset_flags(t.cpu, e).with_sp(sp)), 16)
    } else if y == 6 {
        (with_cpu(t, t.cpu.with_a(s.mem[0xFF00 + e])), 12)
    } else {
        let hl = offset16(c.reg_sp.value(), signed8(e));
        (with_cpu(t, with_sp_offset_flags(t.cpu, e).with_hl(hl)), 12)
    }
}

/// Low bits 1: pops, returns, and jumps through HL.
pub open spec fn block3_col1(s: Machine, y: u8) -> (Machine, i32) {
    let p = y / 2;
    let c = s.cpu;
    if y % 2 == 0 {
        let v = stack_top(s);
        let w = if p == 3 {
            v & 0xFFF0
        } else {
            v
        };
        let t = pop16(s);
        (with_cpu(t, with_stack_reg16(t.cpu, p, w)), 12)
    } else if p == 0 {
        (ret(s), 16)
    } else if p == 1 {
        let t = ret(s);
        (with_cpu(t, Cpu { interrupts_enabled: true, ..t.cpu }), 16)
    } else if p == 2 {
        (with_cpu(s, c.with_pc(c.reg_hl.value())), 4)
    } else {
        (with_cpu(s, c.with_sp(c.reg_hl.value())), 8)
    }
}

/// Low bits 2: conditional absolute jumps and indirect accumulator loads
/// and stores.
pub open spec fn block3_col2(s: Machine, y: u8) -> (Machine, i32) {
    let c = s.cpu;
    let high_c = (0xFF00 + c.reg_bc.lo) as int;
    let t = skip(s, 2);
    if y < 4 {
        if condition(c, y) {
            (with_cpu(s, c.with_pc(imm16(s))), 16)
        } else {
            (t, 12)
        }
    } else if y == 4 {
        (Machine { mem: s.mem.update(high_c, c.reg_af.hi), ..s }, 8)
    } else if y == 5 {
        (Machine { mem: t.mem.update(imm16(s) as int, c.reg_af.hi), ..t }, 16)
    } else if y == 6 {
        (with_cpu(s, c.with_a(s.mem[high_c])), 8)
    } else {
        (with_cpu(t, t.cpu.with_a(s.mem[imm16(s) as int])), 16)
    }
}

/// Low bits 4: conditional calls.
pub open spec fn block3_col4(s: Machine, y: u8) -> (Machine, i32) {
    if condition(s.cpu, y) {
        (call(skip(s, 2), imm16(s)), 24)
    } else {
        (skip(s, 2), 12)
    }
}

/// Low bits 5: pushes, and the unconditional call.
pub open spec fn block3_col5(s: Machine, y: u8) -> (Machine, i32) {
    if y % 2 == 0 {
        (push16(s, stack_reg16(s.cpu, y / 2)), 16)
    } else {
        (call(skip(s, 2), imm16(s)), 24)
    }
}

/// The prefixed table: its first eight entries rotate an 8-bit operand
/// left; the rest only spend their cycles.
pub open spec fn execute_extended(s: Machine) -> (Machine, i32) {
    let op = imm8(s);
    let t = skip(s, 1);
    let cost: i32 = if op % 8 == 6 {
        16
    } else {
        8
    };
    if op < 8 {
        let out = rlc8(reg8(t, op));
        (with_reg8(with_cpu(t, t.cpu.with_alu_flags(out)), op, out.result), cost)
    } else {
        (t, cost)
    }
}

/// Opcodes 0xC0 to 0xFF.
pub open spec fn execute_block3(s: Machine, op: u8) -> (Machine, i32) {
    let y = op / 8 % 8;
    let z = op % 8;
    let c = s.cpu;
    if z == 0 {
        block3_col0(s, y)
    } else if z == 1 {
        block3_col1(s, y)
    } else if z == 2 {
        block3_col2(s, y)
    } else if z == 3 {
        if y == 0 {
            (with_cpu(s, c.with_pc(imm16(s))), 16)
        } else if y == 1 {
            execute_extended(s)
        } else if y == 6 {
            (with_cpu(s, Cpu { interrupts_enabled: false, ..c }), 4)
        } else {
            (with_cpu(s, Cpu { interrupts_enabled: true, ..c }), 4)
        }
    } else if z == 4 {
        block3_col4(s, y)
    } else if z == 5 {
        block3_col5(s, y)
    } else if z == 6 {
        let out = alu(y, c.reg_af.hi, imm8(s), c.carry_flag());
        let t = skip(s, 1);
        (with_cpu(t, t.cpu.after_alu(out)), 8)
    } else {
        (call(s, (y * 8) as u16), 16)
    }
}

/// One instruction whose opcode `op` has been fetched; `s` holds the
/// program counter just past it.
pub open spec fn execute(s: Machine, op: u8) -> (Machine, i32) {
    if op < 0x40 {
        execute_block0(s, op)
    } else if op < 0x80 {
        execute_load(s, op)
    } else if op < 0xC0 {
        execute_alu(s, op)
    } else {
        execute_block3(s, op)
    }
}

/// One processor step and its cost in cycles. A halted processor fetches
/// nothing, changes nothing, and spends four cycles.
#[verifier::opaque]
pub open spec fn step(s: Machine) -> (Machine, i32) {
    if s.cpu.halted {
        (s, 4)
    } else {
        execute(skip(s, 1), s.mem[s.cpu.reg_pc as int])
    }
}

/// A halted processor stays where it is: every step costs four cycles and
/// leaves registers and memory unchanged, until something outside clears
/// `halted`.
pub proof fn lemma_halt_stall(s: Machine)
    requires
        s.cpu.halted,
    ensures
        step(s) == (s, 4i32),
        step(step(s).0) == (s, 4i32),
{
    reveal(step);
}

/// Setting or clearing one of bits 4 to 7 keeps bits 0 to 3.
proof fn lemma_with_bit_keeps_low_nibble(f: u8, bit: u8, on: bool)
    requires
        4 <= bit < 8,
    ensures
        with_bit(f, bit, on) & 0x0F == f & 0x0F,
{
    assert((f | (1u8 << bit)) & 0x0Fu8 == f & 0x0Fu8 && (f & !(1u8 << bit)) & 0x0Fu8 == f & 0x0Fu8)
        by (bit_vector)
        requires
            4 <= bit < 8,
    ;
}

/// Writing the four flags keeps bits 0 to 3 of the flag register.
proof fn lemma_flag_bits_keep_low_nibble(f: u8)
    ensures
        forall|z: bool, n: bool, h: bool, c: bool|
            #[trigger] flag_bits(z, n, h, c, f) & 0x0F == f & 0x0F,
{
    assert forall|z: bool, n: bool, h: bool, c: bool|
        #[trigger] flag_bits(z, n, h, c, f) & 0x0F == f & 0x0F by {
        let f1 = with_bit(f, 7, z);
        let f2 = with_bit(f1, 6, n);
        let f3 = with_bit(f2, 5, h);
        lemma_with_bit_keeps_low_nibble(f, 7, z);
        lemma_with_bit_keeps_low_nibble(f1, 6, n);
        lemma_with_bit_keeps_low_nibble(f2, 5, h);
        lemma_with_bit_keeps_low_nibble(f3, 4, c);
    }
}

/// Bits 0 to 3 of the flag register stay zero: no step sets them.
pub proof fn lemma_flag_low_nibble_stays_zero(s: Machine)
    requires
        s.cpu.reg_af.lo & 0x0F == 0,
    ensures
        step(s).0.cpu.reg_af.lo & 0x0F == 0,
{
    reveal(step);
    lemma_flag_bits_keep_low_nibble(s.cpu.reg_af.lo);
    let w = stack_top(s);
    assert(((w & 0xFFF0u16) % 256) as u8 & 0x0Fu8 == 0) by (bit_vector);
}

} // verus!
