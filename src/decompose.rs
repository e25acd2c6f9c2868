//! Expansion of an instruction into its fixed sequence of micro-operations.
use vstd::prelude::*;

use crate::instruction::{decode_spec, DecodeError, Instruction};
use crate::micro_op::MicroOp;
use crate::registers::CPUReg;

verus! {

/// The micro-operations of a byte load `rd = M[rs1 + imm]`: the address goes
/// through the scratch registers, and the bus is held for the read only.
pub open spec fn load_byte_sequence(rd: CPUReg, rs1: CPUReg, imm: u64) -> Seq<MicroOp> {
    seq![
        MicroOp::RegisterLoadImm(CPUReg::TMP0, imm),
        MicroOp::ALUAdd(CPUReg::TMP1, rs1, CPUReg::TMP0),
        MicroOp::BusTake,
        MicroOp::BusWriteAddress(CPUReg::TMP1),
        MicroOp::BusSetRead,
        MicroOp::BusReadByte(rd),
        MicroOp::BusRelease,
    ]
}

/// The micro-operations that carry out instruction `i`.
pub open spec fn decompose_spec(i: Instruction) -> Seq<MicroOp> {
    match i {
        Instruction::Add(rd, rs1, rs2) => seq![MicroOp::ALUAdd(rd, rs1, rs2)],
        Instruction::And(rd, rs1, rs2) => seq![MicroOp::ALUAnd(rd, rs1, rs2)],
        Instruction::Or(rd, rs1, rs2) => seq![MicroOp::ALUOr(rd, rs1, rs2)],
        Instruction::Sub(rd, rs1, rs2) => seq![MicroOp::ALUSub(rd, rs1, rs2)],
        Instruction::Xor(rd, rs1, rs2) => seq![MicroOp::ALUXor(rd, rs1, rs2)],
        Instruction::Sll(rd, rs1, rs2) => seq![MicroOp::ALUSll(rd, rs1, rs2)],
        Instruction::Srl(rd, rs1, rs2) => seq![MicroOp::ALUSrl(rd, rs1, rs2)],
        Instruction::Sra(rd, rs1, rs2) => seq![MicroOp::ALUSra(rd, rs1, rs2)],
        Instruction::Lb(rd, rs1, imm) => load_byte_sequence(rd, rs1, imm),
        Instruction::ECall | Instruction::EBreak => seq![MicroOp::Halt],
    }
}

/// Decodes `instruction_bits` and expands the instruction into micro-operations.
pub fn decompose_instruction(instruction_bits: u32) -> (r: Result<(Instruction, Vec<MicroOp>), DecodeError>)
    ensures
        match decode_spec(instruction_bits) {
            Some(i) => r matches Ok((j, q)) && j == i && q@ == decompose_spec(i),
            None => r == Err::<(Instruction, Vec<MicroOp>), DecodeError>(DecodeError { bits: instruction_bits }),
        },
{
    let instruction = match Instruction::decode(instruction_bits) {
        Ok(i) => i,
        Err(e) => return Err(e),
    };
    let queue = decompose(instruction);
    Ok((instruction, queue))
}

/// The micro-operations that carry out `instruction`.
pub fn decompose(instruction: Instruction) -> (r: Vec<MicroOp>)
    ensures
        r@ == decompose_spec(instruction),
{
    match instruction {
        Instruction::Add(rd, rs1, rs2) => decompose_add(rd, rs1, rs2),
        Instruction::And(rd, rs1, rs2) => decompose_and(rd, rs1, rs2),
        Instruction::Or(rd, rs1, rs2) => decompose_or(rd, rs1, rs2),
        Instruction::Sub(rd, rs1, rs2) => decompose_sub(rd, rs1, rs2),
        Instruction::Xor(rd, rs1, rs2) => decompose_xor(rd, rs1, rs2),
        Instruction::Sll(rd, rs1, rs2) => decompose_sll(rd, rs1, rs2),
        Instruction::Srl(rd, rs1, rs2) => decompose_srl(rd, rs1, rs2),
        Instruction::Sra(rd, rs1, rs2) => decompose_sra(rd, rs1, rs2),
        Instruction::Lb(rd, rs1, imm) => decompose_lb(rd, rs1, imm),
        Instruction::ECall => decompose_halt(),
        Instruction::EBreak => decompose_halt(),
    }
}

// BASE INTEGER INSTRUCTIONS
fn decompose_add(rd: CPUReg, rs1: CPUReg, rs2: CPUReg) -> (r: Vec<MicroOp>)
    ensures
        r@ == seq![MicroOp::ALUAdd(rd, rs1, rs2)],
{
    let r = vec![MicroOp::ALUAdd(rd, rs1, rs2)];
    assert(r@ =~= seq![MicroOp::ALUAdd(rd, rs1, rs2)]);
    r
}

fn decompose_and(rd: CPUReg, rs1: CPUReg, rs2: CPUReg) -> (r: Vec<MicroOp>)
    ensures
        r@ == seq![MicroOp::ALUAnd(rd, rs1, rs2)],
{
    let r = vec![MicroOp::ALUAnd(rd, rs1, rs2)];
    assert(r@ =~= seq![MicroOp::ALUAnd(rd, rs1, rs2)]);
    r
}

fn decompose_or(rd: CPUReg, rs1: CPUReg, rs2: CPUReg) -> (r: Vec<MicroOp>)
    ensures
        r@ == seq![MicroOp::ALUOr(rd, rs1, rs2)],
{
    let r = vec![MicroOp::ALUOr(rd, rs1, rs2)];
    assert(r@ =~= seq![MicroOp::ALUOr(rd, rs1, rs2)]);
    r
}

fn decompose_sub(rd: CPUReg, rs1: CPUReg, rs2: CPUReg) -> (r: Vec<MicroOp>)
    ensures
        r@ == seq![MicroOp::ALUSub(rd, rs1, rs2)],
{
    let r = vec![MicroOp::ALUSub(rd, rs1, rs2)];
    assert(r@ =~= seq![MicroOp::ALUSub(rd, rs1, rs2)]);
    r
}

fn decompose_xor(rd: CPUReg, rs1: CPUReg, rs2: CPUReg) -> (r: Vec<MicroOp>)
    ensures
        r@ == seq![MicroOp::ALUXor(rd, rs1, rs2)],
{
    let r = vec![MicroOp::ALUXor(rd, rs1, rs2)];
    assert(r@ =~= seq![MicroOp::ALUXor(rd, rs1, rs2)]);
    r
}

fn decompose_sll(rd: CPUReg, rs1: CPUReg, rs2: CPUReg) -> (r: Vec<MicroOp>)
    ensures
        r@ == seq![MicroOp::ALUSll(rd, rs1, rs2)],
{
    let r = vec![MicroOp::ALUSll(rd, rs1, rs2)];
    assert(r@ =~= seq![MicroOp::ALUSll(rd, rs1, rs2)]);
    r
}

fn decompose_srl(rd: CPUReg, rs1: CPUReg, rs2: CPUReg) -> (r: Vec<MicroOp>)
    ensures
        r@ == seq![MicroOp::ALUSrl(rd, rs1, rs2)],
{
    let r = vec![MicroOp::ALUSrl(rd, rs1, rs2)];
    assert(r@ =~= seq![MicroOp::ALUSrl(rd, rs1, rs2)]);
    r
}

fn decompose_sra(rd: CPUReg, rs1: CPUReg, rs2: CPUReg) -> (r: Vec<MicroOp>)
    ensures
        r@ == seq![MicroOp::ALUSra(rd, rs1, rs2)],
{
    let r = vec![MicroOp::ALUSra(rd, rs1, rs2)];
    assert(r@ =~= seq![MicroOp::ALUSra(rd, rs1, rs2)]);
    r
}

fn decompose_halt() -> (r: Vec<MicroOp>)
    ensures
        r@ == seq![MicroOp::Halt],
{
    let r = vec![MicroOp::Halt];
    assert(r@ =~= seq![MicroOp::Halt]);
    r
}

// LOAD INSTRUCTIONS
fn decompose_lb(rd: CPUReg, rs1: CPUReg, imm: u64) -> (r: Vec<MicroOp>)
    ensures
        r@ == load_byte_sequence(rd, rs1, imm),
{
    let r = vec![
        MicroOp::RegisterLoadImm(CPUReg::TMP0, imm),
        MicroOp::ALUAdd(CPUReg::TMP1, rs1, CPUReg::TMP0),
        MicroOp::BusTake,
        MicroOp::BusWriteAddress(CPUReg::TMP1),
        MicroOp::BusSetRead,
        MicroOp::BusReadByte(rd),
        MicroOp::BusRelease,
    ];
    assert(r@ =~= load_byte_sequence(rd, rs1, imm));
    r
}

} // verus!
