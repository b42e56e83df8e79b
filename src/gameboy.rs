//! The frame driver: runs the processor for one frame's worth of cycles.
use vstd::prelude::*;
use crate::cpu::Cpu;
use crate::interpreter::opcode_is_defined;
use crate::memory::Memory;
use crate::semantics::{is_defined_opcode, machine, step, Machine};

verus! {

/// Processor cycles in one display frame.
pub const FRAME_CYCLES: i32 = 69905;

/// Every step costs between 4 and 24 cycles.
pub proof fn lemma_step_cost(s: Machine)
    ensures
        4 <= step(s).1 <= 24,
{
    reveal(step);
}

/// Cycles of the frame still to run, `spent` cycles into it.
pub open spec fn frame_cycles_left(spent: int) -> nat {
    if spent < FRAME_CYCLES {
        (FRAME_CYCLES - spent) as nat
    } else {
        0
    }
}

/// The state after running steps from `s`, `spent` cycles into the frame,
/// until the frame's cycles are spent; or the state at an undefined opcode,
/// with that opcode, if one comes first.
pub open spec fn run_frame(s: Machine, spent: int) -> (Machine, Option<u8>)
    decreases frame_cycles_left(spent),
    via run_frame_decreases
{
    if spent >= FRAME_CYCLES {
        (s, None)
    } else if !s.cpu.halted && !is_defined_opcode(s.mem[s.cpu.reg_pc as int]) {
        (s, Some(s.mem[s.cpu.reg_pc as int]))
    } else {
        run_frame(step(s).0, spent + step(s).1)
    }
}

#[via_fn]
proof fn run_frame_decreases(s: Machine, spent: int) {
    lemma_step_cost(s);
}

pub struct Gameboy {
    pub cpu: Cpu,
    pub memory: Memory,
}

impl Gameboy {
    /// A machine at power-on working on `memory`.
    pub fn new(memory: Memory) -> (r: Gameboy)
        ensures
            r.cpu == Cpu::power_on(),
            r.memory@ == memory@,
    {
        Gameboy { cpu: Cpu::new(), memory }
    }

    /// Runs a single frame's worth of processor cycles. Stops early with
    /// the opcode at the program counter if it is undefined.
    pub fn step(&mut self) -> (r: Result<(), u8>)
        requires
            old(self).memory.wf(),
        ensures
            final(self).memory.wf(),
            ({
                let (t, undefined) = run_frame(machine(old(self).cpu, old(self).memory@), 0);
                &&& t == machine(final(self).cpu, final(self).memory@)
                &&& match undefined {
                    Some(op) => r == Err::<(), u8>(op),
                    None => r is Ok,
                }
            }),
    {
        let mut spent: i32 = 0;
        while spent < FRAME_CYCLES
            invariant
                self.memory.wf(),
                0 <= spent <= FRAME_CYCLES + 24,
                run_frame(machine(self.cpu, self.memory@), spent as int) == run_frame(
                    machine(old(self).cpu, old(self).memory@),
                    0,
                ),
            decreases frame_cycles_left(spent as int),
        {
            if !self.cpu.halted {
                let op = self.memory.read_memory(self.cpu.reg_pc);
                if !opcode_is_defined(op) {
                    return Err(op);
                }
            }
            proof {
                lemma_step_cost(machine(self.cpu, self.memory@));
            }
            let cycles = self.cpu.interpret_opcode(&mut self.memory);
            spent = spent + cycles;
        }
        Ok(())
    }
}

} // verus!
