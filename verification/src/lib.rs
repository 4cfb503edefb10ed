//! A verified interpreter core for the Sharp LR35902 (Game Boy) processor.
//!
//! The crate models the register file, the ALU with its four flags, the
//! two 256-entry opcode dispatch tables, the stack and control-flow
//! instructions and the interrupt servicer.  Memory is reached through the
//! [`mmu::Mmu`] trait, whose contracts describe the bus as 64 KiB of
//! byte-addressed storage; [`cpu::Cpu::cycle`] executes one instruction
//! against such a bus and accounts its cost in T-cycles.

pub mod arith;
pub mod regs;
pub mod mmu;
pub mod alu;
pub mod step;
pub mod cpu;
pub mod laws;
