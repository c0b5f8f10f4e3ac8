//! Main memory: 65536 cells of 16 bits, addressed modulo 65536.

use vstd::prelude::*;

verus! {

/// Number of cells in memory.
pub const MEMORY_SIZE: usize = 65536;

/// The cell that an address reaches: addresses wrap modulo 65536.
pub open spec fn cell_index(address: int) -> int {
    address % (MEMORY_SIZE as int)
}

/// The memory-mapped keyboard registers.
#[derive(Debug, Clone, Copy, PartialEq, Eq, Structural)]
pub enum MemoryMappedReg {
    /// Keyboard status: whether a key has been pressed.
    Kbsr,
    /// Keyboard data: which key was pressed.
    Kbdr,
}

impl MemoryMappedReg {
    /// The address the register is mapped to.
    pub open spec fn spec_address(self) -> u16 {
        match self {
            MemoryMappedReg::Kbsr => 0xFE00,
            MemoryMappedReg::Kbdr => 0xFE02,
        }
    }

    /// The address the register is mapped to.
    pub fn address(self) -> (r: u16)
        ensures
            r == self.spec_address(),
    {
        match self {
            MemoryMappedReg::Kbsr => 0xFE00,
            MemoryMappedReg::Kbdr => 0xFE02,
        }
    }
}

/// The machine's memory.
#[derive(Clone, Copy)]
pub struct Memory {
    data: [u16; 65536],
}

impl View for Memory {
    type V = Seq<u16>;

    /// The cells in address order; always 65536 of them.
    closed spec fn view(&self) -> Seq<u16> {
        self.data@
    }
}

impl Memory {
    /// The view always holds `MEMORY_SIZE` cells.
    pub proof fn lemma_size(&self)
        ensures
            self@.len() == MEMORY_SIZE,
    {
    }

    /// Memory with every cell 0.
    pub fn new() -> (r: Memory)
        ensures
            r@ == Seq::new(MEMORY_SIZE as nat, |i: int| 0u16),
    {
        let r = Memory { data: [0u16; 65536] };
        assert(r@ =~= Seq::new(MEMORY_SIZE as nat, |i: int| 0u16));
        r
    }

    /// Number of cells.
    pub fn size(&self) -> (r: usize)
        ensures
            r == MEMORY_SIZE,
            r == self@.len(),
    {
        MEMORY_SIZE
    }

    /// The cell that `address` reaches, modulo 65536.
    pub fn read(&self, address: usize) -> (r: u16)
        ensures
            r == self@[cell_index(address as int)],
    {
        let effective_address = address & 0xFFFF;
        proof {
            lemma_mask_is_cell_index(address);
        }
        self.data[effective_address]
    }

    /// Sets the cell that `address` reaches, modulo 65536; every other cell
    /// keeps its value.
    pub fn write(&mut self, address: usize, value: u16)
        ensures
            final(self)@ == old(self)@.update(cell_index(address as int), value),
    {
        let effective_address = address & 0xFFFF;
        proof {
            lemma_mask_is_cell_index(address);
        }
        self.data[effective_address] = value;
    }
}

/// Addresses that agree modulo 65536 reach the same cell: a value written at
/// one is read back at the other, e.g. written at 0x10000 and read at 0.
pub proof fn lemma_write_read_wraps(mem: Seq<u16>, written: int, read: int, value: u16)
    requires
        mem.len() == MEMORY_SIZE,
        0 <= written,
        0 <= read,
        written % (MEMORY_SIZE as int) == read % (MEMORY_SIZE as int),
    ensures
        mem.update(cell_index(written), value)[cell_index(read)] == value,
{
}

/// Masking an address with 0xFFFF picks the cell that it reaches.
proof fn lemma_mask_is_cell_index(address: usize)
    ensures
        (address & 0xFFFF) as int == cell_index(address as int),
        (address & 0xFFFF) < MEMORY_SIZE,
{
    assert((address & 0xFFFF) == address % 0x10000 && (address & 0xFFFF) < 0x10000) by (bit_vector);
}

} // verus!
