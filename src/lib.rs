//! An instruction-set simulator for the LC-3, a 16-bit educational machine:
//! register file, wrapping 64K-word memory, instruction decoder and executor,
//! trap services and the program-image loader, each with a verified contract.

pub mod decode;
pub mod flag;
pub mod instruction;
pub mod loader;
pub mod memory;
pub mod opcode;
pub mod reg;
pub mod register;
pub mod trap;
pub mod vm;
