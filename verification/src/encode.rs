//! Instruction encoders for the standard RISC-V formats, the inverse of the
//! interpreter's decoding. They assemble the instruction words that tests
//! and callers feed the machine, and carry the law that a branch encoded
//! towards a target lands exactly there.

use vstd::prelude::*;

use crate::execute::imm_b;

verus! {

/// The R-type encoding: funct7, rs2, rs1, funct3, rd, opcode.
pub open spec fn spec_encode_rtype(
    opcode: u32,
    rd: u32,
    funct3: u32,
    rs1: u32,
    rs2: u32,
    funct7: u32,
) -> u32 {
    ((funct7 & 0x7f) << 25) | ((rs2 & 0x1f) << 20) | ((rs1 & 0x1f) << 15) | ((funct3 & 0x7) << 12)
        | ((rd & 0x1f) << 7) | (opcode & 0x7f)
}

/// Assemble an R-type instruction.
pub fn encode_rtype(opcode: u32, rd: u32, funct3: u32, rs1: u32, rs2: u32, funct7: u32) -> (inst:
    u32)
    ensures
        inst == spec_encode_rtype(opcode, rd, funct3, rs1, rs2, funct7),
{
    ((funct7 & 0x7f) << 25u32) | ((rs2 & 0x1f) << 20u32) | ((rs1 & 0x1f) << 15u32) | ((funct3
        & 0x7) << 12u32) | ((rd & 0x1f) << 7u32) | (opcode & 0x7f)
}

/// The I-type encoding: a 12-bit immediate, rs1, funct3, rd, opcode.
pub open spec fn spec_encode_itype(opcode: u32, rd: u32, funct3: u32, rs1: u32, imm: i32) -> u32 {
    (((imm as u32) & 0xfff) << 20) | ((rs1 & 0x1f) << 15) | ((funct3 & 0x7) << 12) | ((rd & 0x1f)
        << 7) | (opcode & 0x7f)
}

/// Assemble an I-type instruction.
pub fn encode_itype(opcode: u32, rd: u32, funct3: u32, rs1: u32, imm: i32) -> (inst: u32)
    ensures
        inst == spec_encode_itype(opcode, rd, funct3, rs1, imm),
{
    (((imm as u32) & 0xfff) << 20u32) | ((rs1 & 0x1f) << 15u32) | ((funct3 & 0x7) << 12u32) | ((rd
        & 0x1f) << 7u32) | (opcode & 0x7f)
}

/// The S-type encoding: the immediate split over bits 31..25 and 11..7.
pub open spec fn spec_encode_stype(opcode: u32, funct3: u32, rs1: u32, rs2: u32, imm: i32) -> u32 {
    ((((imm as u32) >> 5) & 0x7f) << 25) | ((rs2 & 0x1f) << 20) | ((rs1 & 0x1f) << 15) | ((funct3
        & 0x7) << 12) | (((imm as u32) & 0x1f) << 7) | (opcode & 0x7f)
}

/// Assemble an S-type instruction.
pub fn encode_stype(opcode: u32, funct3: u32, rs1: u32, rs2: u32, imm: i32) -> (inst: u32)
    ensures
        inst == spec_encode_stype(opcode, funct3, rs1, rs2, imm),
{
    ((((imm as u32) >> 5u32) & 0x7f) << 25u32) | ((rs2 & 0x1f) << 20u32) | ((rs1 & 0x1f) << 15u32)
        | ((funct3 & 0x7) << 12u32) | (((imm as u32) & 0x1f) << 7u32) | (opcode & 0x7f)
}

/// The B-type encoding: the even 13-bit branch offset split over bits 31,
/// 30..25, 11..8 and 7.
pub open spec fn spec_encode_btype(opcode: u32, funct3: u32, rs1: u32, rs2: u32, offset: i32) -> u32 {
    let o = offset as u32;
    (((o >> 12) & 1) << 31) | (((o >> 5) & 0x3f) << 25) | ((rs2 & 0x1f) << 20) | ((rs1 & 0x1f)
        << 15) | ((funct3 & 0x7) << 12) | (((o >> 1) & 0xf) << 8) | (((o >> 11) & 1) << 7) | (
    opcode & 0x7f)
}

/// Assemble a B-type instruction with the given byte offset.
pub fn encode_btype(opcode: u32, funct3: u32, rs1: u32, rs2: u32, offset: i32) -> (inst: u32)
    ensures
        inst == spec_encode_btype(opcode, funct3, rs1, rs2, offset),
{
    let o = offset as u32;
    (((o >> 12u32) & 1) << 31u32) | (((o >> 5u32) & 0x3f) << 25u32) | ((rs2 & 0x1f) << 20u32) | ((
    rs1 & 0x1f) << 15u32) | ((funct3 & 0x7) << 12u32) | (((o >> 1u32) & 0xf) << 8u32) | (((o
        >> 11u32) & 1) << 7u32) | (opcode & 0x7f)
}

/// The U-type encoding: the upper 20 immediate bits, rd, opcode.
pub open spec fn spec_encode_utype(opcode: u32, rd: u32, imm20: u32) -> u32 {
    ((imm20 & 0xfffff) << 12) | ((rd & 0x1f) << 7) | (opcode & 0x7f)
}

/// Assemble a U-type instruction from the upper 20 immediate bits.
pub fn encode_utype(opcode: u32, rd: u32, imm20: u32) -> (inst: u32)
    ensures
        inst == spec_encode_utype(opcode, rd, imm20),
{
    ((imm20 & 0xfffff) << 12u32) | ((rd & 0x1f) << 7u32) | (opcode & 0x7f)
}

/// The J-type encoding: the even 21-bit jump offset split over bits 31,
/// 30..21, 20 and 19..12.
pub open spec fn spec_encode_jtype(opcode: u32, rd: u32, offset: i32) -> u32 {
    let o = offset as u32;
    (((o >> 20) & 1) << 31) | (((o >> 1) & 0x3ff) << 21) | (((o >> 11) & 1) << 20) | (((o >> 12)
        & 0xff) << 12) | ((rd & 0x1f) << 7) | (opcode & 0x7f)
}

/// Assemble a J-type instruction with the given byte offset.
pub fn encode_jtype(opcode: u32, rd: u32, offset: i32) -> (inst: u32)
    ensures
        inst == spec_encode_jtype(opcode, rd, offset),
{
    let o = offset as u32;
    (((o >> 20u32) & 1) << 31u32) | (((o >> 1u32) & 0x3ff) << 21u32) | (((o >> 11u32) & 1)
        << 20u32) | (((o >> 12u32) & 0xff) << 12u32) | ((rd & 0x1f) << 7u32) | (opcode & 0x7f)
}

/// Law: for every even branch offset in the 13-bit B-type range, the
/// interpreter decodes from the encoded branch exactly that offset,
/// sign-extended; a taken branch at address `p` therefore sets the program
/// counter to `p` plus the offset — the label the branch was encoded
/// towards.
pub proof fn lemma_branch_target(opcode: u32, funct3: u32, rs1: u32, rs2: u32, offset: i32)
    requires
        -4096 <= offset < 4096,
        offset & 1 == 0,
    ensures
        imm_b(spec_encode_btype(opcode, funct3, rs1, rs2, offset)) == (offset as i64) as u64,
{
    assert(imm_b(spec_encode_btype(opcode, funct3, rs1, rs2, offset)) == (offset as i64) as u64)
        by (bit_vector)
        requires
            -4096 <= offset < 4096,
            offset & 1 == 0,
    ;
}

} // verus!
