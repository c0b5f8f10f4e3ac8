//! The register file addressed by raw index: 0 to 7 are R0 to R7, 8 the
//! program counter, 9 the condition flags.

use vstd::prelude::*;

use crate::flag::{ConditionFlags, lemma_signed_cast};
use crate::reg::{COND_INDEX, REGISTER_COUNT, flags_cell};

verus! {

/// Ten 16-bit cells, addressed by index.
pub struct Registers {
    pub data: [u16; 10],
}

impl View for Registers {
    type V = Seq<u16>;

    /// The cells in index order.
    open spec fn view(&self) -> Seq<u16> {
        self.data@
    }
}

impl Registers {
    /// Ten cells that all hold 0.
    pub fn new() -> (r: Registers)
        ensures
            r@ == Seq::new(10, |i: int| 0u16),
    {
        let r = Registers { data: [0u16; 10] };
        assert(r@ =~= Seq::new(10, |i: int| 0u16));
        r
    }

    /// The value of cell `reg`.
    pub fn read(&self, reg: usize) -> (r: u16)
        requires
            reg < REGISTER_COUNT,
        ensures
            r == self@[reg as int],
    {
        self.data[reg]
    }

    /// Sets cell `reg`; every other cell keeps its value.
    pub fn write(&mut self, reg: usize, value: u16)
        requires
            reg < REGISTER_COUNT,
        ensures
            final(self)@ == old(self)@.update(reg as int, value),
    {
        self.data[reg] = value;
    }

    /// Sets the condition flags from the signed value of general-purpose
    /// register `reg`: ZRO for zero, NEG below zero, POS above.
    pub fn update_flags(&mut self, reg: usize)
        requires
            reg < 8,
        ensures
            final(self)@ == old(self)@.update(COND_INDEX as int, flags_cell(old(self)@[reg as int])),
    {
        let cell = self.data[reg];
        proof {
            lemma_signed_cast(cell);
        }
        let value = #[verifier::truncate] (cell as i16);
        let new_flags = ConditionFlags::update_from_value(value);
        self.data[COND_INDEX] = new_flags.bits() as u16;
    }
}

} // verus!
