//! An Intel 8080 emulator core: architectural state, an instruction decoder,
//! an executor with exact flag semantics, and a cycle-bounded stepper that
//! delivers host interrupts between instructions.
pub mod alu;
pub mod condition_flags;
pub mod decoder;
pub mod disassembly;
pub mod execution;
pub mod instructions;
pub mod invaders;
pub mod laws;
pub mod memory;
pub mod program_counter;
pub mod registers;
pub mod state;
pub mod system;
pub mod test_system;
pub mod timing;
