//! The trap services: what the TRAP instruction asks of the host.
//!
//! The dispatcher decides and updates the machine; the console work it asks
//! for is handed back to the caller as a `TrapAction`.

use vstd::prelude::*;

use crate::memory::{MEMORY_SIZE, Memory, cell_index};
use crate::reg::{PC_INDEX, RegisterEnum, Registers};

verus! {

/// The trap vectors.
#[derive(Debug, Clone, Copy, PartialEq, Eq, Structural)]
pub enum TrapCode {
    /// Read a character, without echo.
    Getc,
    /// Write the character in R0.
    Out,
    /// Write the string at R0, one character per cell.
    Puts,
    /// Prompt, then read a character with echo.
    In,
    /// Write the string at R0, two characters per cell.
    Putsp,
    /// Stop the machine.
    Halt,
}

impl TrapCode {
    /// The vector that selects the service.
    pub open spec fn spec_vector(self) -> u16 {
        match self {
            TrapCode::Getc => 0x20,
            TrapCode::Out => 0x21,
            TrapCode::Puts => 0x22,
            TrapCode::In => 0x23,
            TrapCode::Putsp => 0x24,
            TrapCode::Halt => 0x25,
        }
    }

    /// The vector that selects the service.
    pub fn vector(self) -> (r: u16)
        ensures
            r == self.spec_vector(),
    {
        match self {
            TrapCode::Getc => 0x20,
            TrapCode::Out => 0x21,
            TrapCode::Puts => 0x22,
            TrapCode::In => 0x23,
            TrapCode::Putsp => 0x24,
            TrapCode::Halt => 0x25,
        }
    }

    /// The service that `vector` selects; none outside 0x20 to 0x25.
    pub fn from_vector(vector: u16) -> (r: Option<TrapCode>)
        ensures
            r is Some <==> 0x20 <= vector <= 0x25,
            r is Some ==> r->Some_0.spec_vector() == vector,
    {
        match vector {
            0x20 => Some(TrapCode::Getc),
            0x21 => Some(TrapCode::Out),
            0x22 => Some(TrapCode::Puts),
            0x23 => Some(TrapCode::In),
            0x24 => Some(TrapCode::Putsp),
            0x25 => Some(TrapCode::Halt),
            _ => None,
        }
    }
}

/// The console work that a trap asks of the host.
#[derive(Debug, Clone, PartialEq, Eq)]
pub enum TrapAction {
    /// Read one character and hand it back to be stored in R0; with `echo`,
    /// prompt first and write the character back (IN), else silently (GETC).
    Input { echo: bool },
    /// Write these characters, one byte each.
    Output(Vec<u8>),
    /// Print the halt notice and stop the machine.
    Halt,
    /// A vector that selects no service: the program cannot go on.
    Unknown(u16),
}

/// The character in the low byte of a cell.
pub open spec fn low_byte(cell: u16) -> u8 {
    (cell & 0xFF) as u8
}

/// The character in the high byte of a cell.
pub open spec fn high_byte(cell: u16) -> u8 {
    (cell >> 8usize) as u8
}

/// The cell that lies `i` cells past `start`, wrapping.
pub open spec fn cell_after(mem: Seq<u16>, start: u16, i: int) -> u16 {
    mem[cell_index(start + i)]
}

/// A string at `start` holds `len` cells: all non-zero, and followed by a
/// zero cell unless the string fills the whole memory.
pub open spec fn string_len_is(mem: Seq<u16>, start: u16, len: nat) -> bool {
    &&& len <= MEMORY_SIZE
    &&& forall|i: int| 0 <= i < len ==> cell_after(mem, start, i) != 0
    &&& len < MEMORY_SIZE ==> cell_after(mem, start, len as int) == 0
}

/// The `len` cells from `start`, wrapping.
pub open spec fn string_cells(mem: Seq<u16>, start: u16, len: nat) -> Seq<u16> {
    Seq::new(len, |i: int| cell_after(mem, start, i))
}

/// One character per cell, from the low byte.
pub open spec fn word_chars(cells: Seq<u16>) -> Seq<u8> {
    cells.map_values(|c: u16| low_byte(c))
}

/// The characters of one packed cell: the low byte, then the high byte
/// unless it is zero.
pub open spec fn packed_cell_chars(cell: u16) -> Seq<u8> {
    if high_byte(cell) != 0 {
        seq![low_byte(cell), high_byte(cell)]
    } else {
        seq![low_byte(cell)]
    }
}

/// Two characters per cell, as `packed_cell_chars` reads each.
pub open spec fn packed_chars(cells: Seq<u16>) -> Seq<u8>
    decreases cells.len(),
{
    if cells.len() == 0 {
        seq![]
    } else {
        packed_chars(cells.drop_last()) + packed_cell_chars(cells.last())
    }
}

/// What the trap with vector `vector` asks for, when R0 holds `r0`.
pub open spec fn trap_action_is(r: TrapAction, vector: u16, r0: u16, mem: Seq<u16>) -> bool {
    match r {
        TrapAction::Input { echo } => (vector == 0x20 && !echo) || (vector == 0x23 && echo),
        TrapAction::Output(chars) => {
            ||| vector == 0x21 && chars@ == seq![low_byte(r0)]
            ||| vector == 0x22 && exists|len: nat|
                string_len_is(mem, r0, len) && chars@ == word_chars(string_cells(mem, r0, len))
            ||| vector == 0x24 && exists|len: nat|
                string_len_is(mem, r0, len) && chars@ == packed_chars(string_cells(mem, r0, len))
        },
        TrapAction::Halt => vector == 0x25,
        TrapAction::Unknown(v) => v == vector && !(0x20 <= vector <= 0x25),
    }
}

/// The characters of the zero-terminated string at `start`, one per cell
/// (`packed` false) or two per cell (`packed` true).
fn read_string(memory: &Memory, start: u16, packed: bool) -> (r: Vec<u8>)
    ensures
        exists|len: nat|
            string_len_is(memory@, start, len) && r@ == (if packed {
                packed_chars(string_cells(memory@, start, len))
            } else {
                word_chars(string_cells(memory@, start, len))
            }),
{
    let mut chars: Vec<u8> = Vec::new();
    let mut i: usize = 0;
    while i < MEMORY_SIZE && memory.read(start as usize + i) != 0
        invariant
            i <= MEMORY_SIZE,
            forall|j: int| 0 <= j < i ==> cell_after(memory@, start, j) != 0,
            chars@ == (if packed {
                packed_chars(string_cells(memory@, start, i as nat))
            } else {
                word_chars(string_cells(memory@, start, i as nat))
            }),
        decreases MEMORY_SIZE - i,
    {
        let word = memory.read(start as usize + i);
        let ghost before = string_cells(memory@, start, i as nat);
        let ghost after = string_cells(memory@, start, (i + 1) as nat);
        assert(after.drop_last() =~= before);
        assert(after.last() == word);
        chars.push((word & 0xFF) as u8);
        if packed {
            let high = (word >> 8usize) as u8;
            if high != 0 {
                chars.push(high);
            }
        }
        i = i + 1;
        assert(chars@ =~= (if packed { packed_chars(after) } else { word_chars(after) }));
    }
    assert(string_len_is(memory@, start, i as nat));
    chars
}

/// TRAP trapvect8: R7 takes the PC, then the service that the low byte of
/// `instr` selects is carried out or handed back to the caller.
pub fn trap(instr: u16, registers: &mut Registers, memory: &Memory) -> (r: TrapAction)
    ensures
        final(registers)@ == old(registers)@.update(7, old(registers)@[PC_INDEX as int]),
        trap_action_is(r, instr & 0xFF, old(registers)@[0], memory@),
{
    let pc = registers.read(RegisterEnum::PC);
    registers.write(RegisterEnum::R7, pc);
    let r0 = registers.read(RegisterEnum::R0);
    let vector = instr & 0xFF;
    match TrapCode::from_vector(vector) {
        Some(TrapCode::Getc) => TrapAction::Input { echo: false },
        Some(TrapCode::Out) => {
            let mut chars: Vec<u8> = Vec::new();
            chars.push((r0 & 0xFF) as u8);
            assert(chars@ =~= seq![low_byte(r0)]);
            TrapAction::Output(chars)
        },
        Some(TrapCode::Puts) => TrapAction::Output(read_string(memory, r0, false)),
        Some(TrapCode::In) => TrapAction::Input { echo: true },
        Some(TrapCode::Putsp) => TrapAction::Output(read_string(memory, r0, true)),
        Some(TrapCode::Halt) => TrapAction::Halt,
        None => TrapAction::Unknown(vector),
    }
}

} // verus!
