//! The sixteen operations that the top four bits of an instruction select.

use vstd::prelude::*;

verus! {

/// An operation of the instruction set.
#[derive(PartialEq, Eq, Debug, Copy, Clone, Structural)]
pub enum OpCode {
    /// Conditional branch.
    Br,
    /// Addition.
    Add,
    /// Load, PC-relative.
    Ld,
    /// Store, PC-relative.
    St,
    /// Jump to subroutine.
    Jsr,
    /// Bitwise and.
    And,
    /// Load, base plus offset.
    Ldr,
    /// Store, base plus offset.
    Str,
    /// Return from interrupt (not executed).
    Rti,
    /// Bitwise complement.
    Not,
    /// Load indirect.
    Ldi,
    /// Store indirect.
    Sti,
    /// Jump; `RET` when the base register is R7.
    Jmp,
    /// Reserved (not executed).
    Res,
    /// Load effective address.
    Lea,
    /// System call.
    Trap,
}

/// Why a number names no operation.
#[derive(Debug, PartialEq, Eq, Clone, Copy, Structural)]
pub enum OpCodeError {
    InvalidOpcode,
}

impl OpCode {
    /// The operation's four-bit code.
    pub open spec fn code(self) -> int {
        match self {
            OpCode::Br => 0,
            OpCode::Add => 1,
            OpCode::Ld => 2,
            OpCode::St => 3,
            OpCode::Jsr => 4,
            OpCode::And => 5,
            OpCode::Ldr => 6,
            OpCode::Str => 7,
            OpCode::Rti => 8,
            OpCode::Not => 9,
            OpCode::Ldi => 10,
            OpCode::Sti => 11,
            OpCode::Jmp => 12,
            OpCode::Res => 13,
            OpCode::Lea => 14,
            OpCode::Trap => 15,
        }
    }

    /// The operation whose code is `value`; an error for 16 and above.
    pub fn get(value: u16) -> (r: Result<OpCode, OpCodeError>)
        ensures
            value < 16 ==> r is Ok && r->Ok_0.code() == value,
            value >= 16 ==> r == Err::<OpCode, OpCodeError>(OpCodeError::InvalidOpcode),
    {
        match value {
            0 => Ok(OpCode::Br),
            1 => Ok(OpCode::Add),
            2 => Ok(OpCode::Ld),
            3 => Ok(OpCode::St),
            4 => Ok(OpCode::Jsr),
            5 => Ok(OpCode::And),
            6 => Ok(OpCode::Ldr),
            7 => Ok(OpCode::Str),
            8 => Ok(OpCode::Rti),
            9 => Ok(OpCode::Not),
            10 => Ok(OpCode::Ldi),
            11 => Ok(OpCode::Sti),
            12 => Ok(OpCode::Jmp),
            13 => Ok(OpCode::Res),
            14 => Ok(OpCode::Lea),
            15 => Ok(OpCode::Trap),
            _ => Err(OpCodeError::InvalidOpcode),
        }
    }

    /// The operation whose code is `value`, if `value` is below 16.
    pub fn from(value: u8) -> (r: Option<OpCode>)
        ensures
            value < 16 ==> r is Some && r->Some_0.code() == value,
            value >= 16 ==> r is None,
    {
        match OpCode::get(value as u16) {
            Ok(op) => Some(op),
            Err(_) => None,
        }
    }
}

/// Two operations with the same code are the same operation.
pub proof fn lemma_code_injective(a: OpCode, b: OpCode)
    ensures
        a.code() == b.code() <==> a == b,
{
}

} // verus!
