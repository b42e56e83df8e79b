//! Game Boy (DMG) processor core and cartridge bank controller.
//!
//! The processor is a cycle-counted interpreter whose every instruction is
//! proved against the instruction model in [`semantics`]; the cartridge bank
//! controller is proved against the transition function in [`cartridge`].
pub mod register_pair;
pub mod instructions;
pub mod memory;
pub mod cpu;
pub mod semantics;
pub mod alu;
pub mod interpreter;
pub mod cartridge;
pub mod gameboy;
