//! Decoding an instruction word and dispatching it to its routine.

use vstd::prelude::*;

use crate::instruction::{
    Instructions, add_spec, and_spec, br_spec, jmp_spec, jsr_spec, ld_spec, ldi_spec, ldr_spec,
    lea_spec, not_spec, st_spec, sti_spec, str_spec,
};
use crate::memory::Memory;
use crate::opcode::{OpCode, OpCodeError};
use crate::reg::{PC_INDEX, Registers};
use crate::trap::{TrapAction, trap, trap_action_is};

verus! {

/// The operation that an instruction word selects: the one whose code is
/// the word's top four bits.
pub open spec fn decode(instr: u16) -> OpCode {
    choose|op: OpCode| op.code() == (instr >> 12usize) as int
}

/// What executing one instruction leaves for the caller to do.
#[derive(Debug, Clone, PartialEq, Eq)]
pub enum Outcome {
    /// The instruction ran to completion.
    Done,
    /// RTI or RES, and the instruction word: not executed; it is reported
    /// and execution goes on.
    Unimplemented(OpCode, u16),
    /// TRAP: the registers are updated and the service is handed back.
    Service(TrapAction),
}

/// Registers and memory after executing `instr` on `regs` and `mem`, and the
/// outcome `r`: `regs2` and `mem2` are what the instruction's routine leaves.
pub open spec fn executes(
    instr: u16,
    regs: Seq<u16>,
    mem: Seq<u16>,
    regs2: Seq<u16>,
    mem2: Seq<u16>,
    r: Outcome,
) -> bool {
    let op = decode(instr);
    let done = r == Outcome::Done;
    if op == OpCode::Add {
        done && regs2 == add_spec(instr, regs) && mem2 == mem
    } else if op == OpCode::And {
        done && regs2 == and_spec(instr, regs) && mem2 == mem
    } else if op == OpCode::Not {
        done && regs2 == not_spec(instr, regs) && mem2 == mem
    } else if op == OpCode::Br {
        done && regs2 == br_spec(instr, regs) && mem2 == mem
    } else if op == OpCode::Jmp {
        done && regs2 == jmp_spec(instr, regs) && mem2 == mem
    } else if op == OpCode::Jsr {
        done && regs2 == jsr_spec(instr, regs) && mem2 == mem
    } else if op == OpCode::Ld {
        done && regs2 == ld_spec(instr, regs, mem) && mem2 == mem
    } else if op == OpCode::Ldi {
        done && regs2 == ldi_spec(instr, regs, mem) && mem2 == mem
    } else if op == OpCode::Ldr {
        done && regs2 == ldr_spec(instr, regs, mem) && mem2 == mem
    } else if op == OpCode::Lea {
        done && regs2 == lea_spec(instr, regs) && mem2 == mem
    } else if op == OpCode::St {
        done && regs2 == regs && mem2 == st_spec(instr, regs, mem)
    } else if op == OpCode::Sti {
        done && regs2 == regs && mem2 == sti_spec(instr, regs, mem)
    } else if op == OpCode::Str {
        done && regs2 == regs && mem2 == str_spec(instr, regs, mem)
    } else if op == OpCode::Trap {
        &&& regs2 == regs.update(7, regs[PC_INDEX as int])
        &&& mem2 == mem
        &&& match r {
            Outcome::Service(action) => trap_action_is(action, instr & 0xFF, regs[0], mem),
            _ => false,
        }
    } else {
        r == Outcome::Unimplemented(op, instr) && regs2 == regs && mem2 == mem
    }
}

/// The operation in the top four bits of an instruction; never an error,
/// since four bits always name one.
pub fn extract_op_code(instruction: u16) -> (r: Result<OpCode, OpCodeError>)
    ensures
        r == Ok::<OpCode, OpCodeError>(decode(instruction)),
        decode(instruction).code() == (instruction >> 12usize) as int,
{
    let top = instruction >> 12usize;
    assert(top < 16) by (bit_vector)
        requires
            top == instruction >> 12usize,
    ;
    let r = OpCode::get(top);
    proof {
        let op = r->Ok_0;
        assert(op.code() == top as int);
        crate::opcode::lemma_code_injective(op, decode(instruction));
    }
    r
}

/// Decodes `instr` and runs its routine on the registers and memory.
pub fn execute_instruction(instr: u16, registers: &mut Registers, memory: &mut Memory) -> (r:
    Outcome)
    ensures
        executes(instr, old(registers)@, old(memory)@, final(registers)@, final(memory)@, r),
{
    match extract_op_code(instr) {
        Ok(OpCode::Add) => {
            Instructions::add(instr, registers);
            Outcome::Done
        },
        Ok(OpCode::And) => {
            Instructions::bitwise_and(instr, registers);
            Outcome::Done
        },
        Ok(OpCode::Not) => {
            Instructions::bitwise_not(instr, registers);
            Outcome::Done
        },
        Ok(OpCode::Br) => {
            Instructions::br(instr, registers);
            Outcome::Done
        },
        Ok(OpCode::Jmp) => {
            Instructions::jmp(instr, registers);
            Outcome::Done
        },
        Ok(OpCode::Jsr) => {
            Instructions::jsr(instr, registers);
            Outcome::Done
        },
        Ok(OpCode::Ld) => {
            Instructions::ld(instr, registers, memory);
            Outcome::Done
        },
        Ok(OpCode::Ldi) => {
            Instructions::ldi(instr, registers, memory);
            Outcome::Done
        },
        Ok(OpCode::Ldr) => {
            Instructions::ldr(instr, registers, memory);
            Outcome::Done
        },
        Ok(OpCode::Lea) => {
            Instructions::lea(instr, registers);
            Outcome::Done
        },
        Ok(OpCode::St) => {
            Instructions::st(instr, registers, memory);
            Outcome::Done
        },
        Ok(OpCode::Sti) => {
            Instructions::sti(instr, registers, memory);
            Outcome::Done
        },
        Ok(OpCode::Str) => {
            Instructions::str(instr, registers, memory);
            Outcome::Done
        },
        Ok(OpCode::Trap) => Outcome::Service(trap(instr, registers, memory)),
        Ok(OpCode::Rti) => Outcome::Unimplemented(OpCode::Rti, instr),
        Ok(OpCode::Res) => Outcome::Unimplemented(OpCode::Res, instr),
        Err(_) => Outcome::Done,
    }
}

/// Decoding depends on the instruction word alone, and only on its top four
/// bits: words that agree there decode to the same operation every time, and
/// that operation's code is those bits.
pub proof fn lemma_decode_deterministic(w1: u16, w2: u16)
    requires
        w1 >> 12usize == w2 >> 12usize,
    ensures
        decode(w1) == decode(w2),
        decode(w1).code() == (w1 >> 12usize) as int,
{
    let top = w1 >> 12usize;
    assert(top < 16) by (bit_vector)
        requires
            top == w1 >> 12usize,
    ;
    assert(exists|op: OpCode| op.code() == top as int) by {
        if top == 0 { assert(OpCode::Br.code() == top as int); }
        else if top == 1 { assert(OpCode::Add.code() == top as int); }
        else if top == 2 { assert(OpCode::Ld.code() == top as int); }
        else if top == 3 { assert(OpCode::St.code() == top as int); }
        else if top == 4 { assert(OpCode::Jsr.code() == top as int); }
        else if top == 5 { assert(OpCode::And.code() == top as int); }
        else if top == 6 { assert(OpCode::Ldr.code() == top as int); }
        else if top == 7 { assert(OpCode::Str.code() == top as int); }
        else if top == 8 { assert(OpCode::Rti.code() == top as int); }
        else if top == 9 { assert(OpCode::Not.code() == top as int); }
        else if top == 10 { assert(OpCode::Ldi.code() == top as int); }
        else if top == 11 { assert(OpCode::Sti.code() == top as int); }
        else if top == 12 { assert(OpCode::Jmp.code() == top as int); }
        else if top == 13 { assert(OpCode::Res.code() == top as int); }
        else if top == 14 { assert(OpCode::Lea.code() == top as int); }
        else { assert(OpCode::Trap.code() == top as int); }
    }
}

} // verus!
