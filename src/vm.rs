//! The machine: memory and registers, stepped one instruction at a time.

use vstd::prelude::*;

use crate::decode::{Outcome, execute_instruction, executes};
use crate::flag::ZRO_BIT;
use crate::loader::{LoadError, loaded, parse_image, parse_spec};
use crate::memory::{Memory, cell_index};
use crate::reg::{COND_INDEX, PC_INDEX, RegisterEnum, Registers};

verus! {

/// The address where programs conventionally start.
pub const PC_START: u16 = 0x3000;

/// An LC-3 machine.
pub struct LC3 {
    pub memory: Memory,
    pub registers: Registers,
}

impl LC3 {
    /// A machine with every cell of memory and every register 0.
    pub fn new() -> (r: LC3)
        ensures
            r.memory@ == Seq::new(65536, |i: int| 0u16),
            r.registers@ == Seq::new(10, |i: int| 0u16),
    {
        LC3 { memory: Memory::new(), registers: Registers::new() }
    }

    /// Loads a program image into memory. On success its words stand from
    /// its origin up and every other cell keeps its value; on failure
    /// nothing changes. The registers never change.
    pub fn load_image(&mut self, image: &[u8]) -> (r: Result<(), LoadError>)
        ensures
            final(self).registers@ == old(self).registers@,
            match parse_spec(image@) {
                Ok((origin, words)) => r is Ok && final(self).memory@ == loaded(
                    old(self).memory@,
                    origin as int,
                    words,
                ),
                Err(e) => r == Err::<(), LoadError>(e) && final(self).memory@ == old(
                    self,
                ).memory@,
            },
    {
        match parse_image(image) {
            Ok(parsed) => {
                self.memory.load(&parsed);
                Ok(())
            },
            Err(e) => Err(e),
        }
    }

    /// Sets the state the fetch-execute loop starts from: flags ZRO and the
    /// PC at `PC_START`.
    pub fn reset(&mut self)
        ensures
            final(self).memory@ == old(self).memory@,
            final(self).registers@ == old(self).registers@.update(
                COND_INDEX as int,
                ZRO_BIT as u16,
            ).update(PC_INDEX as int, PC_START),
    {
        self.registers.write(RegisterEnum::COND, ZRO_BIT as u16);
        self.registers.write(RegisterEnum::PC, PC_START);
    }

    /// One fetch-execute step: reads the word at the PC, moves the PC past
    /// it, then executes it.
    pub fn step(&mut self) -> (r: Outcome)
        ensures
            ({
                let pc = old(self).registers@[PC_INDEX as int];
                let instr = old(self).memory@[cell_index(pc as int)];
                let fetched = old(self).registers@.update(PC_INDEX as int, pc.wrapping_add(1));
                executes(
                    instr,
                    fetched,
                    old(self).memory@,
                    final(self).registers@,
                    final(self).memory@,
                    r,
                )
            }),
    {
        let pc = self.registers.read(RegisterEnum::PC);
        let instr = self.memory.read(pc as usize);
        self.registers.write(RegisterEnum::PC, pc.wrapping_add(1));
        execute_instruction(instr, &mut self.registers, &mut self.memory)
    }

    /// Stores a character read for GETC or IN in R0.
    pub fn provide_input(&mut self, c: u8)
        ensures
            final(self).memory@ == old(self).memory@,
            final(self).registers@ == old(self).registers@.update(0, c as u16),
    {
        self.registers.write(RegisterEnum::R0, c as u16);
    }
}

} // verus!
