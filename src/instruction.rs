//! The semantics of each instruction, over the register file and memory.

use vstd::prelude::*;

use crate::memory::{Memory, cell_index};
use crate::reg::{COND_INDEX, PC_INDEX, RegisterEnum, Registers, flags_cell};

verus! {

/// `x` read as a two's-complement field of `bit_count` bits, widened to 16
/// bits: when bit `bit_count - 1` is set, every bit from `bit_count` up is set.
pub open spec fn spec_sign_extend(x: u16, bit_count: usize) -> u16 {
    if (x >> ((bit_count - 1) as usize)) & 1 != 0 {
        x | (0xFFFFu16 << bit_count)
    } else {
        x
    }
}

/// The register number held in the three bits of `instr` from `shift` up.
pub open spec fn reg_field(instr: u16, shift: usize) -> int {
    ((instr >> shift) & 7) as int
}

/// Destination (or, for stores, source) register: bits 11 to 9.
pub open spec fn field_dr(instr: u16) -> int {
    reg_field(instr, 9)
}

/// First source or base register: bits 8 to 6.
pub open spec fn field_sr1(instr: u16) -> int {
    reg_field(instr, 6)
}

/// Second source register: bits 2 to 0.
pub open spec fn field_sr2(instr: u16) -> int {
    reg_field(instr, 0)
}

/// Bit 5: the second operand is the immediate field.
pub open spec fn imm_mode(instr: u16) -> bool {
    (instr >> 5usize) & 1 != 0
}

/// The immediate operand: bits 4 to 0, sign-extended.
pub open spec fn imm5(instr: u16) -> u16 {
    spec_sign_extend(instr & 0x1F, 5)
}

/// The base offset: bits 5 to 0, sign-extended.
pub open spec fn offset6(instr: u16) -> u16 {
    spec_sign_extend(instr & 0x3F, 6)
}

/// The PC offset: bits 8 to 0, sign-extended.
pub open spec fn pc_offset9(instr: u16) -> u16 {
    spec_sign_extend(instr & 0x1FF, 9)
}

/// The long PC offset: bits 10 to 0, sign-extended.
pub open spec fn pc_offset11(instr: u16) -> u16 {
    spec_sign_extend(instr & 0x7FF, 11)
}

/// The cell of `mem` that `address` reaches.
pub open spec fn mem_at(mem: Seq<u16>, address: u16) -> u16 {
    mem[cell_index(address as int)]
}

/// The program counter plus the PC offset of `instr`, wrapping.
pub open spec fn pc_target(instr: u16, regs: Seq<u16>) -> u16 {
    regs[PC_INDEX as int].wrapping_add(pc_offset9(instr))
}

/// `value` written to register `dr`, and the flags set from it.
pub open spec fn with_result(regs: Seq<u16>, dr: int, value: u16) -> Seq<u16> {
    regs.update(dr, value).update(COND_INDEX as int, flags_cell(value))
}

/// The second operand of ADD and AND: the immediate field or SR2.
pub open spec fn second_operand(instr: u16, regs: Seq<u16>) -> u16 {
    if imm_mode(instr) {
        imm5(instr)
    } else {
        regs[field_sr2(instr)]
    }
}

/// Registers after ADD.
pub open spec fn add_spec(instr: u16, regs: Seq<u16>) -> Seq<u16> {
    with_result(regs, field_dr(instr), regs[field_sr1(instr)].wrapping_add(second_operand(instr, regs)))
}

/// Registers after AND.
pub open spec fn and_spec(instr: u16, regs: Seq<u16>) -> Seq<u16> {
    with_result(regs, field_dr(instr), regs[field_sr1(instr)] & second_operand(instr, regs))
}

/// Registers after NOT.
pub open spec fn not_spec(instr: u16, regs: Seq<u16>) -> Seq<u16> {
    with_result(regs, field_dr(instr), !regs[field_sr1(instr)])
}

/// Whether BR is taken: a flag that bits 11 to 9 ask for is set.
pub open spec fn branch_taken(instr: u16, regs: Seq<u16>) -> bool {
    (instr >> 9usize) & 7 & regs[COND_INDEX as int] != 0
}

/// Registers after BR.
pub open spec fn br_spec(instr: u16, regs: Seq<u16>) -> Seq<u16> {
    if branch_taken(instr, regs) {
        regs.update(PC_INDEX as int, pc_target(instr, regs))
    } else {
        regs
    }
}

/// Registers after JMP.
pub open spec fn jmp_spec(instr: u16, regs: Seq<u16>) -> Seq<u16> {
    regs.update(PC_INDEX as int, regs[field_sr1(instr)])
}

/// Registers after JSR or JSRR: R7 takes the PC first, then the PC takes the
/// long offset target (bit 11 set) or the base register's value.
pub open spec fn jsr_spec(instr: u16, regs: Seq<u16>) -> Seq<u16> {
    let pc = regs[PC_INDEX as int];
    let linked = regs.update(7, pc);
    if (instr >> 11usize) & 1 != 0 {
        linked.update(PC_INDEX as int, pc.wrapping_add(pc_offset11(instr)))
    } else {
        linked.update(PC_INDEX as int, linked[field_sr1(instr)])
    }
}

/// Registers after LD.
pub open spec fn ld_spec(instr: u16, regs: Seq<u16>, mem: Seq<u16>) -> Seq<u16> {
    with_result(regs, field_dr(instr), mem_at(mem, pc_target(instr, regs)))
}

/// Registers after LDI: the PC-relative cell holds the address of the value.
pub open spec fn ldi_spec(instr: u16, regs: Seq<u16>, mem: Seq<u16>) -> Seq<u16> {
    with_result(regs, field_dr(instr), mem_at(mem, mem_at(mem, pc_target(instr, regs))))
}

/// The address that LDR and STR reach: base register plus offset, wrapping.
pub open spec fn base_target(instr: u16, regs: Seq<u16>) -> u16 {
    regs[field_sr1(instr)].wrapping_add(offset6(instr))
}

/// Registers after LDR.
pub open spec fn ldr_spec(instr: u16, regs: Seq<u16>, mem: Seq<u16>) -> Seq<u16> {
    with_result(regs, field_dr(instr), mem_at(mem, base_target(instr, regs)))
}

/// Registers after LEA.
pub open spec fn lea_spec(instr: u16, regs: Seq<u16>) -> Seq<u16> {
    with_result(regs, field_dr(instr), pc_target(instr, regs))
}

/// Memory after ST.
pub open spec fn st_spec(instr: u16, regs: Seq<u16>, mem: Seq<u16>) -> Seq<u16> {
    mem.update(cell_index(pc_target(instr, regs) as int), regs[field_dr(instr)])
}

/// Memory after STI: the PC-relative cell holds the address written.
pub open spec fn sti_spec(instr: u16, regs: Seq<u16>, mem: Seq<u16>) -> Seq<u16> {
    mem.update(cell_index(mem_at(mem, pc_target(instr, regs)) as int), regs[field_dr(instr)])
}

/// Memory after STR.
pub open spec fn str_spec(instr: u16, regs: Seq<u16>, mem: Seq<u16>) -> Seq<u16> {
    mem.update(cell_index(base_target(instr, regs) as int), regs[field_dr(instr)])
}

/// Sign-extends the low `bit_count` bits of `x` to 16 bits.
pub fn sign_extend(x: u16, bit_count: usize) -> (r: u16)
    requires
        1 <= bit_count <= 15,
    ensures
        (x >> ((bit_count - 1) as usize)) & 1 == 0 ==> r == x,
        (x >> ((bit_count - 1) as usize)) & 1 != 0 ==> r == x | (0xFFFFu16 << bit_count),
        r == spec_sign_extend(x, bit_count),
{
    if (x >> (bit_count - 1)) & 1 != 0 {
        x | (0xFFFFu16 << bit_count)
    } else {
        x
    }
}

/// The general-purpose register named by the three bits of `instr` from
/// `shift` up.
pub fn extract_register(instr: u16, shift: usize) -> (r: RegisterEnum)
    requires
        shift < 16,
    ensures
        r.index() == reg_field(instr, shift),
        r.index() < 8,
{
    let field = (instr >> shift) & 0x7;
    assert(field < 8) by (bit_vector)
        requires
            field == (instr >> shift) & 0x7,
    ;
    match field {
        0 => RegisterEnum::R0,
        1 => RegisterEnum::R1,
        2 => RegisterEnum::R2,
        3 => RegisterEnum::R3,
        4 => RegisterEnum::R4,
        5 => RegisterEnum::R5,
        6 => RegisterEnum::R6,
        _ => RegisterEnum::R7,
    }
}

/// The instruction routines.
pub struct Instructions;

impl Instructions {
    /// ADD DR, SR1, SR2 | imm5: DR takes the wrapping sum; flags follow DR.
    pub fn add(instr: u16, registers: &mut Registers)
        ensures
            final(registers)@ == add_spec(instr, old(registers)@),
    {
        let dr = extract_register(instr, 9);
        let sr1 = extract_register(instr, 6);
        let imm_flag = (instr >> 5usize) & 0x1;
        let result = if imm_flag != 0 {
            let imm5 = sign_extend(instr & 0x1F, 5);
            registers.read(sr1).wrapping_add(imm5)
        } else {
            let sr2 = extract_register(instr, 0);
            registers.read(sr1).wrapping_add(registers.read(sr2))
        };
        registers.write(dr, result);
        registers.update_flags(dr);
        assert(registers@ =~= add_spec(instr, old(registers)@));
    }

    /// LDI DR, PCoffset9: DR takes the cell whose address is held in the cell
    /// at PC plus the offset; flags follow DR.
    pub fn ldi(instr: u16, registers: &mut Registers, memory: &Memory)
        ensures
            final(registers)@ == ldi_spec(instr, old(registers)@, memory@),
    {
        let dr = extract_register(instr, 9);
        let pc_offset = sign_extend(instr & 0x1FF, 9);
        let pc = registers.read(RegisterEnum::PC);
        let addr1 = pc.wrapping_add(pc_offset);
        let addr2 = memory.read(addr1 as usize);
        let value = memory.read(addr2 as usize);
        registers.write(dr, value);
        registers.update_flags(dr);
        assert(registers@ =~= ldi_spec(instr, old(registers)@, memory@));
    }

    /// AND DR, SR1, SR2 | imm5: DR takes the bitwise and; flags follow DR.
    pub fn bitwise_and(instr: u16, registers: &mut Registers)
        ensures
            final(registers)@ == and_spec(instr, old(registers)@),
    {
        let dr = extract_register(instr, 9);
        let sr1 = extract_register(instr, 6);
        let imm_flag = (instr >> 5usize) & 0x1;
        if imm_flag != 0 {
            let imm5 = sign_extend(instr & 0x1F, 5);
            let result = registers.read(sr1) & imm5;
            registers.write(dr, result);
        } else {
            let sr2 = extract_register(instr, 0);
            let result = registers.read(sr1) & registers.read(sr2);
            registers.write(dr, result);
        }
        registers.update_flags(dr);
        assert(registers@ =~= and_spec(instr, old(registers)@));
    }

    /// NOT DR, SR: DR takes the complement of SR; flags follow DR.
    pub fn bitwise_not(instr: u16, registers: &mut Registers)
        ensures
            final(registers)@ == not_spec(instr, old(registers)@),
    {
        let dr = extract_register(instr, 9);
        let sr = extract_register(instr, 6);
        let value = !registers.read(sr);
        registers.write(dr, value);
        registers.update_flags(dr);
        assert(registers@ =~= not_spec(instr, old(registers)@));
    }

    /// BR n z p, PCoffset9: when a flag that the instruction asks for is set,
    /// the PC moves by the offset; otherwise nothing changes.
    pub fn br(instr: u16, registers: &mut Registers)
        ensures
            final(registers)@ == br_spec(instr, old(registers)@),
    {
        let cond_flag = (instr >> 9usize) & 0x7;
        let pc_offset = sign_extend(instr & 0x1FF, 9);
        let pc = registers.read(RegisterEnum::PC);
        let current_cond = registers.read(RegisterEnum::COND);
        if cond_flag & current_cond != 0 {
            registers.write(RegisterEnum::PC, pc.wrapping_add(pc_offset));
        }
    }

    /// JMP BaseR (RET when BaseR is R7): the PC takes the base register's value.
    pub fn jmp(instr: u16, registers: &mut Registers)
        ensures
            final(registers)@ == jmp_spec(instr, old(registers)@),
    {
        let base_r = extract_register(instr, 6);
        let target_address = registers.read(base_r);
        registers.write(RegisterEnum::PC, target_address);
    }

    /// JSR PCoffset11 / JSRR BaseR: R7 takes the PC, then the PC takes the
    /// offset target (bit 11 set) or the base register's value.
    pub fn jsr(instr: u16, registers: &mut Registers)
        ensures
            final(registers)@ == jsr_spec(instr, old(registers)@),
    {
        let long_flag = (instr >> 11usize) & 0x1;
        let current_pc = registers.read(RegisterEnum::PC);
        registers.write(RegisterEnum::R7, current_pc);
        if long_flag != 0 {
            let pc_offset = sign_extend(instr & 0x7FF, 11);
            registers.write(RegisterEnum::PC, current_pc.wrapping_add(pc_offset));
        } else {
            let base_reg = extract_register(instr, 6);
            let target_pc = registers.read(base_reg);
            registers.write(RegisterEnum::PC, target_pc);
        }
    }

    /// LD DR, PCoffset9: DR takes the cell at PC plus the offset; flags follow DR.
    pub fn ld(instr: u16, registers: &mut Registers, memory: &Memory)
        ensures
            final(registers)@ == ld_spec(instr, old(registers)@, memory@),
    {
        let dr = extract_register(instr, 9);
        let pc_offset = sign_extend(instr & 0x1FF, 9);
        let pc = registers.read(RegisterEnum::PC);
        let value = memory.read(pc.wrapping_add(pc_offset) as usize);
        registers.write(dr, value);
        registers.update_flags(dr);
        assert(registers@ =~= ld_spec(instr, old(registers)@, memory@));
    }

    /// LDR DR, BaseR, offset6: DR takes the cell at the base register plus
    /// the offset; flags follow DR.
    pub fn ldr(instr: u16, registers: &mut Registers, memory: &Memory)
        ensures
            final(registers)@ == ldr_spec(instr, old(registers)@, memory@),
    {
        let dr = extract_register(instr, 9);
        let base_reg = extract_register(instr, 6);
        let offset = sign_extend(instr & 0x3F, 6);
        let base_address = registers.read(base_reg);
        let value = memory.read(base_address.wrapping_add(offset) as usize);
        registers.write(dr, value);
        registers.update_flags(dr);
        assert(registers@ =~= ldr_spec(instr, old(registers)@, memory@));
    }

    /// LEA DR, PCoffset9: DR takes the address PC plus the offset; flags follow DR.
    pub fn lea(instr: u16, registers: &mut Registers)
        ensures
            final(registers)@ == lea_spec(instr, old(registers)@),
    {
        let dr = extract_register(instr, 9);
        let pc_offset = sign_extend(instr & 0x1FF, 9);
        let pc = registers.read(RegisterEnum::PC);
        registers.write(dr, pc.wrapping_add(pc_offset));
        registers.update_flags(dr);
        assert(registers@ =~= lea_spec(instr, old(registers)@));
    }

    /// ST SR, PCoffset9: the cell at PC plus the offset takes SR; the
    /// registers and flags do not change.
    pub fn st(instr: u16, registers: &mut Registers, memory: &mut Memory)
        ensures
            final(registers)@ == old(registers)@,
            final(memory)@ == st_spec(instr, old(registers)@, old(memory)@),
    {
        let sr = extract_register(instr, 9);
        let pc_offset = sign_extend(instr & 0x1FF, 9);
        let pc = registers.read(RegisterEnum::PC);
        let value = registers.read(sr);
        memory.write(pc.wrapping_add(pc_offset) as usize, value);
    }

    /// STI SR, PCoffset9: the cell whose address is held at PC plus the
    /// offset takes SR; the registers and flags do not change.
    pub fn sti(instr: u16, registers: &mut Registers, memory: &mut Memory)
        ensures
            final(registers)@ == old(registers)@,
            final(memory)@ == sti_spec(instr, old(registers)@, old(memory)@),
    {
        let sr = extract_register(instr, 9);
        let pc_offset = sign_extend(instr & 0x1FF, 9);
        let pc = registers.read(RegisterEnum::PC);
        let target = memory.read(pc.wrapping_add(pc_offset) as usize);
        let value = registers.read(sr);
        memory.write(target as usize, value);
    }

    /// STR SR, BaseR, offset6: the cell at the base register plus the offset
    /// takes SR; the registers and flags do not change.
    pub fn str(instr: u16, registers: &mut Registers, memory: &mut Memory)
        ensures
            final(registers)@ == old(registers)@,
            final(memory)@ == str_spec(instr, old(registers)@, old(memory)@),
    {
        let sr = extract_register(instr, 9);
        let base_reg = extract_register(instr, 6);
        let offset = sign_extend(instr & 0x3F, 6);
        let base_address = registers.read(base_reg);
        let value = registers.read(sr);
        memory.write(base_address.wrapping_add(offset) as usize, value);
    }
}

} // verus!
