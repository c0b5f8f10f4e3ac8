//! The register file addressed by name: R0 to R7, the program counter and
//! the condition-flag register.

use vstd::prelude::*;

use crate::flag::{ConditionFlags, flag_bits_of, signed};

verus! {

/// Number of cells in the register file.
pub const REGISTER_COUNT: usize = 10;

/// Index of the program counter in the register file.
pub const PC_INDEX: usize = 8;

/// Index of the condition-flag register in the register file.
pub const COND_INDEX: usize = 9;

/// A cell of the register file.
#[derive(Debug, Clone, Copy, PartialEq, Eq, Structural)]
pub enum RegisterEnum {
    R0,
    R1,
    R2,
    R3,
    R4,
    R5,
    R6,
    R7,
    /// The program counter.
    PC,
    /// The condition flags.
    COND,
}

impl RegisterEnum {
    /// The cell's index in the register file.
    pub open spec fn index(self) -> int {
        match self {
            RegisterEnum::R0 => 0,
            RegisterEnum::R1 => 1,
            RegisterEnum::R2 => 2,
            RegisterEnum::R3 => 3,
            RegisterEnum::R4 => 4,
            RegisterEnum::R5 => 5,
            RegisterEnum::R6 => 6,
            RegisterEnum::R7 => 7,
            RegisterEnum::PC => 8,
            RegisterEnum::COND => 9,
        }
    }

    /// The register of a given index, where there is one.
    pub open spec fn of_index(i: int) -> Option<RegisterEnum> {
        if i == 0 {
            Some(RegisterEnum::R0)
        } else if i == 1 {
            Some(RegisterEnum::R1)
        } else if i == 2 {
            Some(RegisterEnum::R2)
        } else if i == 3 {
            Some(RegisterEnum::R3)
        } else if i == 4 {
            Some(RegisterEnum::R4)
        } else if i == 5 {
            Some(RegisterEnum::R5)
        } else if i == 6 {
            Some(RegisterEnum::R6)
        } else if i == 7 {
            Some(RegisterEnum::R7)
        } else if i == 8 {
            Some(RegisterEnum::PC)
        } else if i == 9 {
            Some(RegisterEnum::COND)
        } else {
            None
        }
    }

    /// The cell's index in the register file.
    pub fn to_index(self) -> (r: usize)
        ensures
            r == self.index(),
    {
        match self {
            RegisterEnum::R0 => 0,
            RegisterEnum::R1 => 1,
            RegisterEnum::R2 => 2,
            RegisterEnum::R3 => 3,
            RegisterEnum::R4 => 4,
            RegisterEnum::R5 => 5,
            RegisterEnum::R6 => 6,
            RegisterEnum::R7 => 7,
            RegisterEnum::PC => 8,
            RegisterEnum::COND => 9,
        }
    }
}

/// The register of index `index`, or the error for an index past COND.
pub open spec fn register_of_index(index: usize) -> Result<RegisterEnum, &'static str> {
    match RegisterEnum::of_index(index as int) {
        Some(r) => Ok(r),
        None => Err("Invalid register index"),
    }
}

impl TryFrom<usize> for RegisterEnum {
    type Error = &'static str;

    /// The register of index `index`; an error for an index past COND.
    fn try_from(index: usize) -> (r: Result<RegisterEnum, &'static str>)
        ensures
            r == register_of_index(index),
    {
        match index {
            0 => Ok(RegisterEnum::R0),
            1 => Ok(RegisterEnum::R1),
            2 => Ok(RegisterEnum::R2),
            3 => Ok(RegisterEnum::R3),
            4 => Ok(RegisterEnum::R4),
            5 => Ok(RegisterEnum::R5),
            6 => Ok(RegisterEnum::R6),
            7 => Ok(RegisterEnum::R7),
            8 => Ok(RegisterEnum::PC),
            9 => Ok(RegisterEnum::COND),
            _ => Err("Invalid register index"),
        }
    }
}

impl vstd::std_specs::convert::TryFromSpecImpl<usize> for RegisterEnum {
    open spec fn obeys_try_from_spec() -> bool {
        true
    }

    open spec fn try_from_spec(index: usize) -> Result<RegisterEnum, &'static str> {
        register_of_index(index)
    }
}

/// The condition-flag bits that writing `value` to a general-purpose
/// register derives, as the flag register holds them.
pub open spec fn flags_cell(value: u16) -> u16 {
    flag_bits_of(signed(value)) as u16
}

/// The register file: R0 to R7, PC at index 8, the condition flags at index 9.
pub struct Registers {
    pub data: [u16; 10],
}

impl View for Registers {
    type V = Seq<u16>;

    /// The cells, indexed as `RegisterEnum::index` gives.
    open spec fn view(&self) -> Seq<u16> {
        self.data@
    }
}

impl Registers {
    /// Ten cells that all hold 0.
    pub fn new() -> (r: Registers)
        ensures
            r@ == Seq::new(10, |i: int| 0u16),
    {
        let r = Registers { data: [0u16; 10] };
        assert(r@ =~= Seq::new(10, |i: int| 0u16));
        r
    }

    /// The value of a register.
    pub fn read(&self, reg: RegisterEnum) -> (r: u16)
        ensures
            r == self@[reg.index()],
    {
        self.data[reg.to_index()]
    }

    /// Sets a register; every other one keeps its value.
    pub fn write(&mut self, reg: RegisterEnum, value: u16)
        ensures
            final(self)@ == old(self)@.update(reg.index(), value),
    {
        self.data[reg.to_index()] = value;
    }

    /// Sets the condition flags from the signed value of a general-purpose
    /// register: ZRO for zero, NEG below zero, POS above.
    pub fn update_flags(&mut self, reg: RegisterEnum)
        requires
            reg.index() < 8,
        ensures
            final(self)@ == old(self)@.update(COND_INDEX as int, flags_cell(old(self)@[reg.index()])),
    {
        let cell = self.data[reg.to_index()];
        proof {
            crate::flag::lemma_signed_cast(cell);
        }
        let value = #[verifier::truncate] (cell as i16);
        let new_flags = ConditionFlags::update_from_value(value);
        self.data[COND_INDEX] = new_flags.bits() as u16;
    }
}

} // verus!
