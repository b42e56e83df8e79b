use dmg_core::cpu::Cpu;
use dmg_core::interpreter::opcode_is_defined;
use dmg_core::memory::Memory;

const Z: u8 = 0x80;
const N: u8 = 0x40;
const H: u8 = 0x20;
const C: u8 = 0x10;

fn program(bytes: &[u8]) -> (Cpu, Memory) {
    let mut mem = Memory::new();
    mem.load(0x0100, bytes);
    (Cpu::new(), mem)
}

fn with_flags(f: u8) -> Cpu {
    let mut cpu = Cpu::new();
    cpu.reg_af.lo = f;
    cpu
}

#[test]
fn power_on_registers() {
    let cpu = Cpu::new();
    assert_eq!(cpu.reg_af.get_pair(), 0x01B0);
    assert_eq!(cpu.reg_bc.get_pair(), 0x0013);
    assert_eq!(cpu.reg_de.get_pair(), 0x00D8);
    assert_eq!(cpu.reg_hl.get_pair(), 0x014D);
    assert_eq!(cpu.reg_sp.get_pair(), 0xFFFE);
    assert_eq!(cpu.get_reg_pc(), 0x0100);
    assert!(!cpu.get_interrupts_enabled());
    assert!(!cpu.halted);
}

#[test]
fn accessors_set_fields() {
    let mut cpu = Cpu::new();
    cpu.set_reg_pc(0x1234);
    assert_eq!(cpu.get_reg_pc(), 0x1234);
    cpu.set_interrupts_enabled(true);
    assert!(cpu.get_interrupts_enabled());
    cpu.set_halted(true);
    assert!(cpu.halted);
}

#[test]
fn get_byte_and_word_advance_pc() {
    let (mut cpu, mem) = program(&[0x34, 0x12, 0x78, 0x56]);
    assert_eq!(cpu.get_byte(&mem), 0x34);
    assert_eq!(cpu.get_reg_pc(), 0x0101);
    assert_eq!(cpu.get_word(&mem), 0x7812);
    assert_eq!(cpu.get_reg_pc(), 0x0103);
}

#[test]
fn get_word_wraps_at_end_of_memory() {
    let mut mem = Memory::new();
    mem.write_memory(0xFFFF, 0xCD);
    mem.write_memory(0x0000, 0xAB);
    let mut cpu = Cpu::new();
    cpu.set_reg_pc(0xFFFF);
    assert_eq!(cpu.get_word(&mem), 0xABCD);
    assert_eq!(cpu.get_reg_pc(), 0x0001);
}

#[test]
fn stack_push_then_pop_round_trips() {
    let mut mem = Memory::new();
    let mut cpu = Cpu::new();
    for v in [0x0000u16, 0x1234, 0xBEEF, 0xFFFF] {
        let sp = cpu.reg_sp.get_pair();
        cpu.stack_push(&mut mem, v);
        assert_eq!(cpu.reg_sp.get_pair(), sp.wrapping_sub(2));
        assert_eq!(cpu.stack_pop(&mem), v);
        assert_eq!(cpu.reg_sp.get_pair(), sp);
    }
}

#[test]
fn stack_push_byte_layout() {
    let mut mem = Memory::new();
    let mut cpu = Cpu::new();
    cpu.stack_push(&mut mem, 0xBEEF);
    assert_eq!(mem.read_memory(0xFFFD), 0xEF);
    assert_eq!(mem.read_memory(0xFFFC), 0xBE);
}

#[test]
fn stack_wraps_around_address_zero() {
    let mut mem = Memory::new();
    let mut cpu = Cpu::new();
    cpu.reg_sp.set_pair(0x0001);
    cpu.stack_push(&mut mem, 0x4321);
    assert_eq!(cpu.reg_sp.get_pair(), 0xFFFF);
    assert_eq!(cpu.stack_pop(&mem), 0x4321);
    assert_eq!(cpu.reg_sp.get_pair(), 0x0001);
}

#[test]
fn call_routine_pushes_pc() {
    let mut mem = Memory::new();
    let mut cpu = Cpu::new();
    cpu.call_routine(&mut mem, 0x0038);
    assert_eq!(cpu.get_reg_pc(), 0x0038);
    assert_eq!(cpu.stack_pop(&mem), 0x0100);
}

#[test]
fn flag_updates_touch_one_bit() {
    let mut cpu = with_flags(0x00);
    cpu.update_zero_flag(0);
    assert_eq!(cpu.reg_af.lo, Z);
    cpu.update_subtract_flag(true);
    cpu.update_half_carry_flag(true);
    cpu.update_carry_flag(true);
    assert_eq!(cpu.reg_af.lo, Z | N | H | C);
    cpu.update_zero_flag(7);
    cpu.update_carry_flag(false);
    assert_eq!(cpu.reg_af.lo, N | H);
}

#[test]
fn inc_u8_half_carry_boundary() {
    let mut cpu = with_flags(0x00);
    let mut v: u8 = 0x0F;
    cpu.inc_u8(&mut v);
    assert_eq!(v, 0x10);
    assert_eq!(cpu.reg_af.lo & H, H);
    assert_eq!(cpu.reg_af.lo & Z, 0);
}

#[test]
fn inc_u8_wraps_to_zero() {
    let mut cpu = with_flags(C);
    let mut v: u8 = 0xFF;
    cpu.inc_u8(&mut v);
    assert_eq!(v, 0x00);
    assert_eq!(cpu.reg_af.lo, Z | H | C);
}

#[test]
fn dec_u8_half_carry_boundary() {
    let mut cpu = with_flags(0x00);
    let mut v: u8 = 0x10;
    cpu.dec_u8(&mut v);
    assert_eq!(v, 0x0F);
    assert_eq!(cpu.reg_af.lo, N | H);
}

#[test]
fn dec_u8_to_zero() {
    let mut cpu = with_flags(0x00);
    let mut v: u8 = 0x01;
    cpu.dec_u8(&mut v);
    assert_eq!(v, 0x00);
    assert_eq!(cpu.reg_af.lo, Z | N);
}

#[test]
fn add_u8_a_flags() {
    let mut cpu = with_flags(0x00);
    cpu.reg_af.hi = 0xFF;
    cpu.add_u8_a(0x01);
    assert_eq!(cpu.reg_af.hi, 0x00);
    assert_eq!(cpu.reg_af.lo, Z | H | C);
    cpu.reg_af.hi = 0x3A;
    cpu.add_u8_a(0xC6);
    assert_eq!(cpu.reg_af.hi, 0x00);
    assert_eq!(cpu.reg_af.lo, Z | H | C);
    cpu.reg_af.hi = 0x12;
    cpu.add_u8_a(0x22);
    assert_eq!(cpu.reg_af.hi, 0x34);
    assert_eq!(cpu.reg_af.lo, 0);
}

#[test]
fn adc_reg_a_uses_carry() {
    let mut cpu = with_flags(C);
    cpu.reg_af.hi = 0x0E;
    cpu.adc_reg_a(0x01);
    assert_eq!(cpu.reg_af.hi, 0x10);
    assert_eq!(cpu.reg_af.lo, H);
    let mut cpu = with_flags(C);
    cpu.reg_af.hi = 0xFE;
    cpu.adc_reg_a(0x01);
    assert_eq!(cpu.reg_af.hi, 0x00);
    assert_eq!(cpu.reg_af.lo, Z | H | C);
}

#[test]
fn sub_u8_a_flags() {
    let mut cpu = with_flags(0x00);
    cpu.reg_af.hi = 0x10;
    cpu.sub_u8_a(0x01);
    assert_eq!(cpu.reg_af.hi, 0x0F);
    assert_eq!(cpu.reg_af.lo, N | H);
    cpu.reg_af.hi = 0x01;
    cpu.sub_u8_a(0x02);
    assert_eq!(cpu.reg_af.hi, 0xFF);
    assert_eq!(cpu.reg_af.lo, N | H | C);
    cpu.reg_af.hi = 0x42;
    cpu.sub_u8_a(0x42);
    assert_eq!(cpu.reg_af.hi, 0x00);
    assert_eq!(cpu.reg_af.lo, Z | N);
}

#[test]
fn sbc_reg_a_uses_carry() {
    let mut cpu = with_flags(C);
    cpu.reg_af.hi = 0x10;
    cpu.sbc_reg_a(0x0F);
    assert_eq!(cpu.reg_af.hi, 0x00);
    assert_eq!(cpu.reg_af.lo, Z | N | H);
    let mut cpu = with_flags(C);
    cpu.reg_af.hi = 0x00;
    cpu.sbc_reg_a(0x00);
    assert_eq!(cpu.reg_af.hi, 0xFF);
    assert_eq!(cpu.reg_af.lo, N | H | C);
}

#[test]
fn logic_ops_flags() {
    let mut cpu = with_flags(C);
    cpu.reg_af.hi = 0xF0;
    cpu.and_reg_a(0x0F);
    assert_eq!(cpu.reg_af.hi, 0x00);
    assert_eq!(cpu.reg_af.lo, Z | H);
    cpu.reg_af.hi = 0xF0;
    cpu.or_reg_a(0x0F);
    assert_eq!(cpu.reg_af.hi, 0xFF);
    assert_eq!(cpu.reg_af.lo, 0);
    cpu.xor_reg_a(0xFF);
    assert_eq!(cpu.reg_af.hi, 0x00);
    assert_eq!(cpu.reg_af.lo, Z);
}

#[test]
fn cp_reg_a_keeps_accumulator() {
    let mut cpu = with_flags(0x00);
    cpu.reg_af.hi = 0x05;
    cpu.cp_reg_a(0x05);
    assert_eq!(cpu.reg_af.hi, 0x05);
    assert_eq!(cpu.reg_af.lo, Z | N);
    cpu.cp_reg_a(0x06);
    assert_eq!(cpu.reg_af.hi, 0x05);
    assert_eq!(cpu.reg_af.lo, N | H | C);
}

#[test]
fn add_u16_hl_flags() {
    let mut cpu = with_flags(Z);
    cpu.reg_hl.set_pair(0x0FFF);
    let mut v: u16 = 0x0001;
    cpu.add_u16_hl(&mut v);
    assert_eq!(v, 0x0001);
    assert_eq!(cpu.reg_hl.get_pair(), 0x1000);
    assert_eq!(cpu.reg_af.lo, Z | H);
    cpu.reg_hl.set_pair(0xFFFF);
    cpu.add_u16_hl(&mut v);
    assert_eq!(cpu.reg_hl.get_pair(), 0x0000);
    assert_eq!(cpu.reg_af.lo, Z | H | C);
}

#[test]
fn rotations() {
    let mut cpu = with_flags(0x00);
    let mut v: u8 = 0x85;
    cpu.rlc_u8(&mut v);
    assert_eq!(v, 0x0B);
    assert_eq!(cpu.reg_af.lo, C);
    let mut v: u8 = 0x80;
    cpu.rl_u8(&mut v);
    assert_eq!(v, 0x01);
    assert_eq!(cpu.reg_af.lo, C);
    let mut v: u8 = 0x80;
    cpu.rl_u8(&mut v);
    assert_eq!(v, 0x01);
    let mut cpu = with_flags(0x00);
    let mut v: u8 = 0x01;
    cpu.rrc_u8(&mut v);
    assert_eq!(v, 0x80);
    assert_eq!(cpu.reg_af.lo, C);
    let mut v: u8 = 0x01;
    cpu.rr_u8(&mut v);
    assert_eq!(v, 0x80);
    assert_eq!(cpu.reg_af.lo, C);
    let mut cpu = with_flags(0x00);
    let mut v: u8 = 0x01;
    cpu.rr_u8(&mut v);
    assert_eq!(v, 0x00);
    assert_eq!(cpu.reg_af.lo, Z | C);
}

#[test]
fn nop_costs_four_and_changes_only_pc() {
    let (mut cpu, mut mem) = program(&[0x00]);
    let before = cpu;
    assert_eq!(cpu.interpret_opcode(&mut mem), 4);
    assert_eq!(cpu.get_reg_pc(), 0x0101);
    let mut expected = before;
    expected.set_reg_pc(0x0101);
    assert_eq!(cpu, expected);
}

#[test]
fn ld_a_immediate() {
    let (mut cpu, mut mem) = program(&[0x3E, 0x05]);
    assert_eq!(cpu.interpret_opcode(&mut mem), 8);
    assert_eq!(cpu.reg_af.hi, 0x05);
    assert_eq!(cpu.get_reg_pc(), 0x0102);
}

#[test]
fn add_a_immediate_half_carry() {
    let (mut cpu, mut mem) = program(&[0xC6, 0x0B]);
    cpu.reg_af.hi = 0x05;
    assert_eq!(cpu.interpret_opcode(&mut mem), 8);
    assert_eq!(cpu.reg_af.hi, 0x10);
    assert_eq!(cpu.reg_af.lo & Z, 0);
    assert_eq!(cpu.reg_af.lo & H, H);
    assert_eq!(cpu.reg_af.lo & C, 0);
    assert_eq!(cpu.get_reg_pc(), 0x0102);
}

#[test]
fn load_then_add_program() {
    let (mut cpu, mut mem) = program(&[0x3E, 0x05, 0xC6, 0x0B]);
    assert_eq!(cpu.interpret_opcode(&mut mem), 8);
    assert_eq!(cpu.interpret_opcode(&mut mem), 8);
    assert_eq!(cpu.reg_af.hi, 0x10);
    assert_eq!(cpu.reg_af.lo, H);
}

#[test]
fn halt_stalls() {
    let (mut cpu, mut mem) = program(&[0x76, 0x3C, 0x3C]);
    assert_eq!(cpu.interpret_opcode(&mut mem), 4);
    assert!(cpu.halted);
    let pc = cpu.get_reg_pc();
    let snapshot = cpu;
    for _ in 0..10 {
        assert_eq!(cpu.interpret_opcode(&mut mem), 4);
        assert_eq!(cpu.get_reg_pc(), pc);
        assert_eq!(cpu, snapshot);
    }
    cpu.set_halted(false);
    let a = cpu.reg_af.hi;
    assert_eq!(cpu.interpret_opcode(&mut mem), 4);
    assert_eq!(cpu.reg_af.hi, a.wrapping_add(1));
}

#[test]
fn relative_jumps() {
    let (mut cpu, mut mem) = program(&[0x18, 0xFE]);
    assert_eq!(cpu.interpret_opcode(&mut mem), 12);
    assert_eq!(cpu.get_reg_pc(), 0x0100);
    let (mut cpu, mut mem) = program(&[0x18, 0x05]);
    cpu.interpret_opcode(&mut mem);
    assert_eq!(cpu.get_reg_pc(), 0x0107);
    let (mut cpu, mut mem) = program(&[0x20, 0x10]);
    cpu.reg_af.lo = Z;
    assert_eq!(cpu.interpret_opcode(&mut mem), 8);
    assert_eq!(cpu.get_reg_pc(), 0x0102);
    let (mut cpu, mut mem) = program(&[0x28, 0x10]);
    cpu.reg_af.lo = Z;
    assert_eq!(cpu.interpret_opcode(&mut mem), 12);
    assert_eq!(cpu.get_reg_pc(), 0x0112);
}

#[test]
fn call_and_return() {
    let (mut cpu, mut mem) = program(&[0xCD, 0x00, 0x20]);
    mem.write_memory(0x2000, 0xC9);
    assert_eq!(cpu.interpret_opcode(&mut mem), 24);
    assert_eq!(cpu.get_reg_pc(), 0x2000);
    assert_eq!(cpu.reg_sp.get_pair(), 0xFFFC);
    assert_eq!(cpu.interpret_opcode(&mut mem), 16);
    assert_eq!(cpu.get_reg_pc(), 0x0103);
    assert_eq!(cpu.reg_sp.get_pair(), 0xFFFE);
}

#[test]
fn conditional_call_not_taken() {
    let (mut cpu, mut mem) = program(&[0xC4, 0x00, 0x20]);
    cpu.reg_af.lo = Z;
    assert_eq!(cpu.interpret_opcode(&mut mem), 12);
    assert_eq!(cpu.get_reg_pc(), 0x0103);
    assert_eq!(cpu.reg_sp.get_pair(), 0xFFFE);
}

#[test]
fn restart_and_reti() {
    let (mut cpu, mut mem) = program(&[0xFF]);
    mem.write_memory(0x0038, 0xD9);
    assert_eq!(cpu.interpret_opcode(&mut mem), 16);
    assert_eq!(cpu.get_reg_pc(), 0x0038);
    assert_eq!(cpu.interpret_opcode(&mut mem), 16);
    assert_eq!(cpu.get_reg_pc(), 0x0101);
    assert!(cpu.get_interrupts_enabled());
}

#[test]
fn push_and_pop_af_masks_low_nibble() {
    let (mut cpu, mut mem) = program(&[0xC5, 0xF1]);
    cpu.reg_bc.set_pair(0x12FF);
    assert_eq!(cpu.interpret_opcode(&mut mem), 16);
    assert_eq!(cpu.interpret_opcode(&mut mem), 12);
    assert_eq!(cpu.reg_af.get_pair(), 0x12F0);
}

#[test]
fn register_moves_and_memory_loads() {
    let (mut cpu, mut mem) = program(&[0x45, 0x4D, 0x36, 0x99, 0x7E, 0x22, 0x3A]);
    cpu.reg_hl.set_pair(0xC000);
    cpu.reg_de.lo = 0x11;
    assert_eq!(cpu.interpret_opcode(&mut mem), 4);
    assert_eq!(cpu.reg_bc.hi, 0x00);
    cpu.reg_hl.lo = 0x10;
    assert_eq!(cpu.interpret_opcode(&mut mem), 4);
    assert_eq!(cpu.reg_bc.lo, 0x10);
    assert_eq!(cpu.interpret_opcode(&mut mem), 12);
    assert_eq!(mem.read_memory(0xC010), 0x99);
    assert_eq!(cpu.interpret_opcode(&mut mem), 8);
    assert_eq!(cpu.reg_af.hi, 0x99);
    assert_eq!(cpu.interpret_opcode(&mut mem), 8);
    assert_eq!(cpu.reg_hl.get_pair(), 0xC011);
    assert_eq!(mem.read_memory(0xC010), 0x99);
    cpu.reg_af.hi = 0;
    assert_eq!(cpu.interpret_opcode(&mut mem), 8);
    assert_eq!(cpu.reg_af.hi, 0x00);
    assert_eq!(cpu.reg_hl.get_pair(), 0xC010);
}

#[test]
fn inc_through_hl_writes_memory() {
    let (mut cpu, mut mem) = program(&[0x34]);
    cpu.reg_hl.set_pair(0xC000);
    mem.write_memory(0xC000, 0x0F);
    assert_eq!(cpu.interpret_opcode(&mut mem), 12);
    assert_eq!(mem.read_memory(0xC000), 0x10);
    assert_eq!(cpu.reg_af.lo & H, H);
}

#[test]
fn sixteen_bit_loads_and_arithmetic() {
    let (mut cpu, mut mem) = program(&[0x01, 0x34, 0x12, 0x0B, 0x09, 0x08, 0x00, 0xC0]);
    assert_eq!(cpu.interpret_opcode(&mut mem), 12);
    assert_eq!(cpu.reg_bc.get_pair(), 0x1234);
    assert_eq!(cpu.interpret_opcode(&mut mem), 8);
    assert_eq!(cpu.reg_bc.get_pair(), 0x1233);
    assert_eq!(cpu.interpret_opcode(&mut mem), 8);
    assert_eq!(cpu.reg_hl.get_pair(), 0x014D + 0x1233);
    assert_eq!(cpu.interpret_opcode(&mut mem), 20);
    assert_eq!(mem.read_memory(0xC000), 0xFE);
    assert_eq!(mem.read_memory(0xC001), 0xFF);
}

#[test]
fn stack_pointer_offsets() {
    let (mut cpu, mut mem) = program(&[0xE8, 0xFE, 0xF8, 0x01]);
    cpu.reg_sp.set_pair(0x000F);
    assert_eq!(cpu.interpret_opcode(&mut mem), 16);
    assert_eq!(cpu.reg_sp.get_pair(), 0x000D);
    assert_eq!(cpu.reg_af.lo, H | C);
    assert_eq!(cpu.interpret_opcode(&mut mem), 12);
    assert_eq!(cpu.reg_hl.get_pair(), 0x000E);
    assert_eq!(cpu.reg_af.lo, 0);
}

#[test]
fn high_page_loads() {
    let (mut cpu, mut mem) = program(&[0xE0, 0x80, 0xF0, 0x81]);
    cpu.reg_af.hi = 0x42;
    mem.write_memory(0xFF81, 0x24);
    assert_eq!(cpu.interpret_opcode(&mut mem), 12);
    assert_eq!(mem.read_memory(0xFF80), 0x42);
    assert_eq!(cpu.interpret_opcode(&mut mem), 12);
    assert_eq!(cpu.reg_af.hi, 0x24);
}

#[test]
fn flag_opcodes() {
    let (mut cpu, mut mem) = program(&[0x37, 0x3F, 0x2F]);
    cpu.reg_af.lo = Z | N | H;
    cpu.reg_af.hi = 0x0F;
    assert_eq!(cpu.interpret_opcode(&mut mem), 4);
    assert_eq!(cpu.reg_af.lo, Z | C);
    cpu.interpret_opcode(&mut mem);
    assert_eq!(cpu.reg_af.lo, Z);
    cpu.interpret_opcode(&mut mem);
    assert_eq!(cpu.reg_af.hi, 0xF0);
    assert_eq!(cpu.reg_af.lo, Z | N | H);
}

#[test]
fn interrupt_switch_opcodes() {
    let (mut cpu, mut mem) = program(&[0xFB, 0xF3]);
    cpu.interpret_opcode(&mut mem);
    assert!(cpu.get_interrupts_enabled());
    cpu.interpret_opcode(&mut mem);
    assert!(!cpu.get_interrupts_enabled());
}

#[test]
fn extended_rotate_left() {
    let (mut cpu, mut mem) = program(&[0xCB, 0x00, 0xCB, 0x07, 0xCB, 0x06]);
    cpu.reg_bc.hi = 0x80;
    cpu.reg_af.hi = 0x01;
    cpu.reg_hl.set_pair(0xC000);
    mem.write_memory(0xC000, 0x81);
    assert_eq!(cpu.interpret_opcode(&mut mem), 8);
    assert_eq!(cpu.reg_bc.hi, 0x01);
    assert_eq!(cpu.reg_af.lo & C, C);
    assert_eq!(cpu.interpret_opcode(&mut mem), 8);
    assert_eq!(cpu.reg_af.hi, 0x02);
    assert_eq!(cpu.interpret_opcode(&mut mem), 16);
    assert_eq!(mem.read_memory(0xC000), 0x03);
    assert_eq!(cpu.get_reg_pc(), 0x0106);
}

#[test]
fn extended_cost_only_entries() {
    let (mut cpu, mut mem) = program(&[0x40, 0x46]);
    let before = cpu;
    assert_eq!(cpu.extended_instruction(&mut mem), 8);
    assert_eq!(cpu.extended_instruction(&mut mem), 16);
    assert_eq!(cpu.reg_af, before.reg_af);
    assert_eq!(cpu.get_reg_pc(), 0x0102);
}

#[test]
fn undefined_opcodes() {
    for op in [0xD3u8, 0xDB, 0xDD, 0xE3, 0xE4, 0xEB, 0xEC, 0xED, 0xF4, 0xFC, 0xFD] {
        assert!(!opcode_is_defined(op));
    }
    assert!(opcode_is_defined(0x00));
    assert!(opcode_is_defined(0xCB));
    assert!(opcode_is_defined(0xFF));
}
