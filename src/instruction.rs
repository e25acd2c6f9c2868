//! Instructions and their 32-bit binary encoding.
//!
//! Register-register operations use the R-type layout (funct7, rs2, rs1,
//! funct3, rd, opcode); the byte load and the environment calls use the I-type
//! layout (a 12-bit immediate, rs1, funct3, rd, opcode).
use vstd::prelude::*;

use crate::bits::le_value;
use crate::registers::CPUReg;

verus! {

/// Opcode of the register-register ALU operations.
pub const OPCODE_OP: u32 = 0b011_0011;

/// Opcode of the loads.
pub const OPCODE_LOAD: u32 = 0b000_0011;

/// Opcode of the environment call and break.
pub const OPCODE_SYSTEM: u32 = 0b111_0011;

#[derive(Debug, Copy, Clone, PartialEq, Eq, Structural)]
pub enum Instruction {
    /// rd, rs1, rs2
    Add(CPUReg, CPUReg, CPUReg),
    And(CPUReg, CPUReg, CPUReg),
    Or(CPUReg, CPUReg, CPUReg),
    Sub(CPUReg, CPUReg, CPUReg),
    Xor(CPUReg, CPUReg, CPUReg),
    Sll(CPUReg, CPUReg, CPUReg),
    Srl(CPUReg, CPUReg, CPUReg),
    Sra(CPUReg, CPUReg, CPUReg),
    /// rd, rs1, imm: `rd = M[rs1 + imm]`, one byte, sign-extended
    Lb(CPUReg, CPUReg, u64),
    ECall,
    EBreak,
}

/// A word that is no instruction of the supported set.
#[derive(Debug, Copy, Clone, PartialEq, Eq, Structural)]
pub struct DecodeError {
    pub bits: u32,
}

/// Bits 6..0: the opcode.
pub open spec fn opcode_of(w: u32) -> u32 {
    w & 0x7f
}

/// Bits 11..7: the destination register.
pub open spec fn rd_of(w: u32) -> u32 {
    (w >> 7) & 0x1f
}

/// Bits 14..12: funct3.
pub open spec fn funct3_of(w: u32) -> u32 {
    (w >> 12) & 0x7
}

/// Bits 19..15: the first source register.
pub open spec fn rs1_of(w: u32) -> u32 {
    (w >> 15) & 0x1f
}

/// Bits 24..20: the second source register.
pub open spec fn rs2_of(w: u32) -> u32 {
    (w >> 20) & 0x1f
}

/// Bits 31..25: funct7.
pub open spec fn funct7_of(w: u32) -> u32 {
    (w >> 25) & 0x7f
}

/// Bits 31..20: the immediate of the I-type layout, unsigned.
pub open spec fn imm_of(w: u32) -> u32 {
    w >> 20
}

/// A 12-bit immediate sign-extended to 64 bits.
pub open spec fn sign_extend_12(imm: u32) -> u64 {
    if imm < 0x800 {
        imm as u64
    } else {
        (imm as u64 + 0xFFFF_FFFF_FFFF_F000) as u64
    }
}

/// Whether a 64-bit immediate survives the trip through 12 bits.
pub open spec fn imm_representable(imm: u64) -> bool {
    imm < 0x800 || imm >= 0xFFFF_FFFF_FFFF_F800
}

/// The R-type word with the given fields.
pub open spec fn r_word(funct7: u32, rs2: u32, rs1: u32, funct3: u32, rd: u32, opcode: u32) -> u32 {
    (funct7 << 25) | (rs2 << 20) | (rs1 << 15) | (funct3 << 12) | (rd << 7) | opcode
}

/// The I-type word with the given fields.
pub open spec fn i_word(imm: u32, rs1: u32, funct3: u32, rd: u32, opcode: u32) -> u32 {
    (imm << 20) | (rs1 << 15) | (funct3 << 12) | (rd << 7) | opcode
}

/// The register named by a 5-bit field.
pub open spec fn reg_field(x: u32) -> CPUReg {
    CPUReg::at(x as nat)
}

/// The 5-bit field that names an architectural register.
pub open spec fn field_of(r: CPUReg) -> u32 {
    r.spec_index() as u32
}

/// The instruction that word `w` encodes, if any.
pub open spec fn decode_spec(w: u32) -> Option<Instruction> {
    let rd = reg_field(rd_of(w));
    let rs1 = reg_field(rs1_of(w));
    let rs2 = reg_field(rs2_of(w));
    let f3 = funct3_of(w);
    let f7 = funct7_of(w);
    if opcode_of(w) == OPCODE_OP {
        if f3 == 0 && f7 == 0 {
            Some(Instruction::Add(rd, rs1, rs2))
        } else if f3 == 7 && f7 == 0 {
            Some(Instruction::And(rd, rs1, rs2))
        } else if f3 == 6 && f7 == 0 {
            Some(Instruction::Or(rd, rs1, rs2))
        } else if f3 == 0 && f7 == 0x20 {
            Some(Instruction::Sub(rd, rs1, rs2))
        } else if f3 == 4 && f7 == 0 {
            Some(Instruction::Xor(rd, rs1, rs2))
        } else if f3 == 1 && f7 == 0 {
            Some(Instruction::Sll(rd, rs1, rs2))
        } else if f3 == 5 && f7 == 0 {
            Some(Instruction::Srl(rd, rs1, rs2))
        } else if f3 == 5 && f7 == 0x20 {
            Some(Instruction::Sra(rd, rs1, rs2))
        } else {
            None
        }
    } else if opcode_of(w) == OPCODE_LOAD && f3 == 0 {
        Some(Instruction::Lb(rd, rs1, sign_extend_12(imm_of(w))))
    } else if opcode_of(w) == OPCODE_SYSTEM && f3 == 0 && imm_of(w) == 0 {
        Some(Instruction::ECall)
    } else if opcode_of(w) == OPCODE_SYSTEM && f3 == 0 && imm_of(w) == 1 {
        Some(Instruction::EBreak)
    } else {
        None
    }
}

/// The four bytes of word `w`, lowest first.
pub open spec fn word_bytes(w: u32) -> Seq<u8> {
    seq![
        (w % 0x100) as u8,
        (w / 0x100 % 0x100) as u8,
        (w / 0x1_0000 % 0x100) as u8,
        (w / 0x100_0000) as u8,
    ]
}

/// The word that encodes instruction `i`; an immediate keeps its low 12 bits.
pub open spec fn encode_spec(i: Instruction) -> u32 {
    match i {
        Instruction::Add(rd, rs1, rs2) => r_word(0, field_of(rs2), field_of(rs1), 0, field_of(rd), OPCODE_OP),
        Instruction::And(rd, rs1, rs2) => r_word(0, field_of(rs2), field_of(rs1), 7, field_of(rd), OPCODE_OP),
        Instruction::Or(rd, rs1, rs2) => r_word(0, field_of(rs2), field_of(rs1), 6, field_of(rd), OPCODE_OP),
        Instruction::Sub(rd, rs1, rs2) => r_word(0x20, field_of(rs2), field_of(rs1), 0, field_of(rd), OPCODE_OP),
        Instruction::Xor(rd, rs1, rs2) => r_word(0, field_of(rs2), field_of(rs1), 4, field_of(rd), OPCODE_OP),
        Instruction::Sll(rd, rs1, rs2) => r_word(0, field_of(rs2), field_of(rs1), 1, field_of(rd), OPCODE_OP),
        Instruction::Srl(rd, rs1, rs2) => r_word(0, field_of(rs2), field_of(rs1), 5, field_of(rd), OPCODE_OP),
        Instruction::Sra(rd, rs1, rs2) => r_word(0x20, field_of(rs2), field_of(rs1), 5, field_of(rd), OPCODE_OP),
        Instruction::Lb(rd, rs1, imm) => i_word((imm % 0x1000) as u32, field_of(rs1), 0, field_of(rd), OPCODE_LOAD),
        Instruction::ECall => i_word(0, 0, 0, 0, OPCODE_SYSTEM),
        Instruction::EBreak => i_word(1, 0, 0, 0, OPCODE_SYSTEM),
    }
}

impl Instruction {
    /// Whether every register operand has a 5-bit encoding.
    pub open spec fn is_encodable(self) -> bool {
        match self {
            Instruction::Add(rd, rs1, rs2) | Instruction::And(rd, rs1, rs2) | Instruction::Or(rd, rs1, rs2)
            | Instruction::Sub(rd, rs1, rs2) | Instruction::Xor(rd, rs1, rs2) | Instruction::Sll(rd, rs1, rs2)
            | Instruction::Srl(rd, rs1, rs2) | Instruction::Sra(rd, rs1, rs2) => rd.is_architectural()
                && rs1.is_architectural() && rs2.is_architectural(),
            Instruction::Lb(rd, rs1, _) => rd.is_architectural() && rs1.is_architectural(),
            Instruction::ECall | Instruction::EBreak => true,
        }
    }

    /// Whether the instruction survives encoding unchanged: its registers are
    /// encodable and its immediate, if any, fits in 12 signed bits.
    pub open spec fn is_representable(self) -> bool {
        &&& self.is_encodable()
        &&& (self matches Instruction::Lb(_, _, imm) ==> imm_representable(imm))
    }

    /// The binary encoding of the instruction.
    pub fn encode(&self) -> (r: u32)
        requires
            self.is_encodable(),
        ensures
            r == encode_spec(*self),
    {
        encode_instruction(self)
    }

    /// The instruction that `instruction` encodes.
    pub fn decode(instruction: u32) -> (r: Result<Instruction, DecodeError>)
        ensures
            r == match decode_spec(instruction) {
                Some(i) => Ok(i),
                None => Err(DecodeError { bits: instruction }),
            },
    {
        decode_instruction(instruction)
    }

    /// The four bytes of the encoding, lowest first.
    pub fn to_byte_vector(&self) -> (r: Vec<u8>)
        requires
            self.is_encodable(),
        ensures
            r@ == word_bytes(encode_spec(*self)),
            le_value(r@) == encode_spec(*self) as nat,
    {
        let encoded = self.encode();
        let b0 = encoded as u8;
        let b1 = (encoded >> 8) as u8;
        let b2 = (encoded >> 16) as u8;
        let b3 = (encoded >> 24) as u8;
        proof {
            crate::bits::lemma_le_value_4(b0, b1, b2, b3);
            assert(b0 as u32 + 0x100 * (b1 as u32) + 0x1_0000 * (b2 as u32) + 0x100_0000 * (
            b3 as u32) == encoded) by (bit_vector)
                requires
                    b0 == encoded as u8,
                    b1 == (encoded >> 8) as u8,
                    b2 == (encoded >> 16) as u8,
                    b3 == (encoded >> 24) as u8,
            ;
            assert(b0 == encoded % 0x100 && b1 == encoded / 0x100 % 0x100 && b2 == encoded / 0x1_0000
                % 0x100 && b3 == encoded / 0x100_0000) by (bit_vector)
                requires
                    b0 == encoded as u8,
                    b1 == (encoded >> 8) as u8,
                    b2 == (encoded >> 16) as u8,
                    b3 == (encoded >> 24) as u8,
            ;
        }
        let r = vec![b0, b1, b2, b3];
        assert(r@ =~= seq![b0, b1, b2, b3]);
        r
    }
}

// ROUND TRIPS

/// The fields of an R-type word are those it was built from.
pub proof fn lemma_r_word_fields(funct7: u32, rs2: u32, rs1: u32, funct3: u32, rd: u32, opcode: u32)
    requires
        funct7 < 0x80,
        rs2 < 32,
        rs1 < 32,
        funct3 < 8,
        rd < 32,
        opcode < 0x80,
    ensures
        opcode_of(r_word(funct7, rs2, rs1, funct3, rd, opcode)) == opcode,
        rd_of(r_word(funct7, rs2, rs1, funct3, rd, opcode)) == rd,
        funct3_of(r_word(funct7, rs2, rs1, funct3, rd, opcode)) == funct3,
        rs1_of(r_word(funct7, rs2, rs1, funct3, rd, opcode)) == rs1,
        rs2_of(r_word(funct7, rs2, rs1, funct3, rd, opcode)) == rs2,
        funct7_of(r_word(funct7, rs2, rs1, funct3, rd, opcode)) == funct7,
{
    assert({
        let w = (funct7 << 25) | (rs2 << 20) | (rs1 << 15) | (funct3 << 12) | (rd << 7) | opcode;
        &&& w & 0x7f == opcode
        &&& (w >> 7) & 0x1f == rd
        &&& (w >> 12) & 0x7 == funct3
        &&& (w >> 15) & 0x1f == rs1
        &&& (w >> 20) & 0x1f == rs2
        &&& (w >> 25) & 0x7f == funct7
    }) by (bit_vector)
        requires
            funct7 < 0x80,
            rs2 < 32,
            rs1 < 32,
            funct3 < 8,
            rd < 32,
            opcode < 0x80,
    ;
}

/// Every word is the R-type word of its own fields.
pub proof fn lemma_r_word_of_fields(w: u32)
    ensures
        r_word(funct7_of(w), rs2_of(w), rs1_of(w), funct3_of(w), rd_of(w), opcode_of(w)) == w,
{
    assert((((w >> 25) & 0x7f) << 25) | (((w >> 20) & 0x1f) << 20) | (((w >> 15) & 0x1f) << 15) | (((
    w >> 12) & 0x7) << 12) | (((w >> 7) & 0x1f) << 7) | (w & 0x7f) == w) by (bit_vector);
}

/// The fields of an I-type word are those it was built from.
pub proof fn lemma_i_word_fields(imm: u32, rs1: u32, funct3: u32, rd: u32, opcode: u32)
    requires
        imm < 0x1000,
        rs1 < 32,
        funct3 < 8,
        rd < 32,
        opcode < 0x80,
    ensures
        opcode_of(i_word(imm, rs1, funct3, rd, opcode)) == opcode,
        rd_of(i_word(imm, rs1, funct3, rd, opcode)) == rd,
        funct3_of(i_word(imm, rs1, funct3, rd, opcode)) == funct3,
        rs1_of(i_word(imm, rs1, funct3, rd, opcode)) == rs1,
        imm_of(i_word(imm, rs1, funct3, rd, opcode)) == imm,
{
    assert({
        let w = (imm << 20) | (rs1 << 15) | (funct3 << 12) | (rd << 7) | opcode;
        &&& w & 0x7f == opcode
        &&& (w >> 7) & 0x1f == rd
        &&& (w >> 12) & 0x7 == funct3
        &&& (w >> 15) & 0x1f == rs1
        &&& w >> 20 == imm
    }) by (bit_vector)
        requires
            imm < 0x1000,
            rs1 < 32,
            funct3 < 8,
            rd < 32,
            opcode < 0x80,
    ;
}

/// Every word is the I-type word of its own fields.
pub proof fn lemma_i_word_of_fields(w: u32)
    ensures
        i_word(imm_of(w), rs1_of(w), funct3_of(w), rd_of(w), opcode_of(w)) == w,
        imm_of(w) < 0x1000,
        rd_of(w) < 32,
        rs1_of(w) < 32,
        rs2_of(w) < 32,
{
    assert(((w >> 20) << 20) | (((w >> 15) & 0x1f) << 15) | (((w >> 12) & 0x7) << 12) | (((w >> 7)
        & 0x1f) << 7) | (w & 0x7f) == w) by (bit_vector);
    assert(w >> 20 < 0x1000 && (w >> 7) & 0x1f < 32 && (w >> 15) & 0x1f < 32 && (w >> 20) & 0x1f < 32)
        by (bit_vector);
}

/// A 5-bit field names the register whose encoding it is.
pub proof fn lemma_reg_field(x: u32)
    requires
        x < 32,
    ensures
        field_of(reg_field(x)) == x,
        reg_field(x).is_architectural(),
{
}

/// Decoding an encoded instruction gives it back, for every instruction whose
/// registers have 5-bit encodings and whose immediate fits in 12 signed bits.
pub proof fn lemma_decode_encode(i: Instruction)
    requires
        i.is_representable(),
    ensures
        decode_spec(encode_spec(i)) == Some(i),
{
    match i {
        Instruction::Add(rd, rs1, rs2) | Instruction::And(rd, rs1, rs2) | Instruction::Or(rd, rs1, rs2)
        | Instruction::Sub(rd, rs1, rs2) | Instruction::Xor(rd, rs1, rs2) | Instruction::Sll(rd, rs1, rs2)
        | Instruction::Srl(rd, rs1, rs2) | Instruction::Sra(rd, rs1, rs2) => {
            rd.lemma_index_inverse();
            rs1.lemma_index_inverse();
            rs2.lemma_index_inverse();
            let (f7, f3): (u32, u32) = match i {
                Instruction::Add(..) => (0, 0),
                Instruction::And(..) => (0, 7),
                Instruction::Or(..) => (0, 6),
                Instruction::Sub(..) => (0x20, 0),
                Instruction::Xor(..) => (0, 4),
                Instruction::Sll(..) => (0, 1),
                Instruction::Srl(..) => (0, 5),
                _ => (0x20, 5),
            };
            lemma_r_word_fields(f7, field_of(rs2), field_of(rs1), f3, field_of(rd), OPCODE_OP);
        },
        Instruction::Lb(rd, rs1, imm) => {
            rd.lemma_index_inverse();
            rs1.lemma_index_inverse();
            lemma_i_word_fields((imm % 0x1000) as u32, field_of(rs1), 0, field_of(rd), OPCODE_LOAD);
        },
        Instruction::ECall => {
            lemma_i_word_fields(0, 0, 0, 0, OPCODE_SYSTEM);
        },
        Instruction::EBreak => {
            lemma_i_word_fields(1, 0, 0, 0, OPCODE_SYSTEM);
        },
    }
}

/// Encoding a decoded word gives the word back, for every word that decodes,
/// save an environment call or break whose unused rd or rs1 field is not zero.
pub proof fn lemma_encode_decode(w: u32)
    requires
        decode_spec(w) is Some,
        opcode_of(w) == OPCODE_SYSTEM ==> rd_of(w) == 0 && rs1_of(w) == 0,
    ensures
        encode_spec(decode_spec(w).unwrap()) == w,
{
    lemma_i_word_of_fields(w);
    lemma_r_word_of_fields(w);
    lemma_reg_field(rd_of(w));
    lemma_reg_field(rs1_of(w));
    lemma_reg_field(rs2_of(w));
    if opcode_of(w) == OPCODE_LOAD {
        let imm = imm_of(w);
        assert(sign_extend_12(imm) % 0x1000 == imm);
    }
}

// ENCODING

/// The binary encoding of `instruction`.
pub fn encode_instruction(instruction: &Instruction) -> (r: u32)
    requires
        instruction.is_encodable(),
    ensures
        r == encode_spec(*instruction),
{
    match instruction {
        Instruction::Add(rd, rs1, rs2) => encode_r_type(0x00, *rs2, *rs1, 0x0, *rd, 0b011_0011),
        Instruction::And(rd, rs1, rs2) => encode_r_type(0x00, *rs2, *rs1, 0x7, *rd, 0b011_0011),
        Instruction::Or(rd, rs1, rs2) => encode_r_type(0x00, *rs2, *rs1, 0x6, *rd, 0b011_0011),
        Instruction::Sub(rd, rs1, rs2) => encode_r_type(0x20, *rs2, *rs1, 0x0, *rd, 0b011_0011),
        Instruction::Xor(rd, rs1, rs2) => encode_r_type(0x00, *rs2, *rs1, 0x4, *rd, 0b011_0011),
        Instruction::Sll(rd, rs1, rs2) => encode_r_type(0x00, *rs2, *rs1, 0x1, *rd, 0b011_0011),
        Instruction::Srl(rd, rs1, rs2) => encode_r_type(0x00, *rs2, *rs1, 0x5, *rd, 0b011_0011),
        Instruction::Sra(rd, rs1, rs2) => encode_r_type(0x20, *rs2, *rs1, 0x5, *rd, 0b011_0011),
        Instruction::Lb(rd, rs1, imm) => encode_i_type(*imm, *rs1, 0x0, *rd, 0b000_0011),
        Instruction::ECall => encode_i_type(0x0, CPUReg::X0, 0x0, CPUReg::X0, 0b111_0011),
        Instruction::EBreak => encode_i_type(0x1, CPUReg::X0, 0x0, CPUReg::X0, 0b111_0011),
    }
}

fn encode_r_type(fn7: u8, rs2: CPUReg, rs1: CPUReg, fn3: u8, rd: CPUReg, opcode: u8) -> (r: u32)
    requires
        fn7 < 0x80,
        fn3 < 8,
        opcode < 0x80,
        rs2.is_architectural(),
        rs1.is_architectural(),
        rd.is_architectural(),
    ensures
        r == r_word(fn7 as u32, field_of(rs2), field_of(rs1), fn3 as u32, field_of(rd), opcode as u32),
{
    let f7 = fn7 as u32;
    let s2 = rs2.to_riscv() as u32;
    let s1 = rs1.to_riscv() as u32;
    let f3 = fn3 as u32;
    let d = rd.to_riscv() as u32;
    let op = opcode as u32;
    proof {
        assert(s2 & 0x1f == s2 && s1 & 0x1f == s1 && d & 0x1f == d && f3 & 0x7 == f3 && op & 0x7f
            == op) by (bit_vector)
            requires
                s2 < 32,
                s1 < 32,
                d < 32,
                f3 < 8,
                op < 0x80,
        ;
    }
    (f7 << 25) | ((s2 & 0x1f) << 20) | ((s1 & 0x1f) << 15) | ((f3 & 0x7) << 12) | ((d & 0x1f) << 7)
        | (op & 0x7f)
}

fn encode_i_type(imm: u64, rs1: CPUReg, fn3: u8, rd: CPUReg, opcode: u8) -> (r: u32)
    requires
        fn3 < 8,
        opcode < 0x80,
        rs1.is_architectural(),
        rd.is_architectural(),
    ensures
        r == i_word((imm % 0x1000) as u32, field_of(rs1), fn3 as u32, field_of(rd), opcode as u32),
{
    let low = (imm & 0xFFF) as u32;
    let s1 = rs1.to_riscv() as u32;
    let f3 = fn3 as u32;
    let d = rd.to_riscv() as u32;
    let op = opcode as u32;
    proof {
        assert(imm & 0xFFF == imm % 0x1000) by (bit_vector);
        assert(s1 & 0x1f == s1 && d & 0x1f == d && f3 & 0x7 == f3 && op & 0x7f == op)
            by (bit_vector)
            requires
                s1 < 32,
                d < 32,
                f3 < 8,
                op < 0x80,
        ;
    }
    (low << 20) | ((s1 & 0x1f) << 15) | ((f3 & 0x7) << 12) | ((d & 0x1f) << 7) | (op & 0x7f)
}

// DECODING

/// The instruction that `instruction` encodes, or the word itself as the error.
pub fn decode_instruction(instruction: u32) -> (r: Result<Instruction, DecodeError>)
    ensures
        r == match decode_spec(instruction) {
            Some(i) => Ok(i),
            None => Err(DecodeError { bits: instruction }),
        },
{
    let opcode = instruction & 0x7f;
    if opcode == OPCODE_LOAD || opcode == OPCODE_SYSTEM {
        decode_i(instruction, opcode)
    } else if opcode == OPCODE_OP {
        decode_r(instruction)
    } else {
        Err(DecodeError { bits: instruction })
    }
}

fn decode_r(instruction: u32) -> (r: Result<Instruction, DecodeError>)
    requires
        opcode_of(instruction) == OPCODE_OP,
    ensures
        r == match decode_spec(instruction) {
            Some(i) => Ok(i),
            None => Err(DecodeError { bits: instruction }),
        },
{
    let funct3 = get_funct3(instruction);
    let funct7 = get_funct7(instruction);
    let rd = get_rd(instruction);
    let rs1 = get_rs1(instruction);
    let rs2 = get_rs2(instruction);
    if funct3 == 0x0 && funct7 == 0x00 {
        Ok(Instruction::Add(rd, rs1, rs2))
    } else if funct3 == 0x7 && funct7 == 0x00 {
        Ok(Instruction::And(rd, rs1, rs2))
    } else if funct3 == 0x6 && funct7 == 0x00 {
        Ok(Instruction::Or(rd, rs1, rs2))
    } else if funct3 == 0x0 && funct7 == 0x20 {
        Ok(Instruction::Sub(rd, rs1, rs2))
    } else if funct3 == 0x4 && funct7 == 0x00 {
        Ok(Instruction::Xor(rd, rs1, rs2))
    } else if funct3 == 0x1 && funct7 == 0x00 {
        Ok(Instruction::Sll(rd, rs1, rs2))
    } else if funct3 == 0x5 && funct7 == 0x00 {
        Ok(Instruction::Srl(rd, rs1, rs2))
    } else if funct3 == 0x5 && funct7 == 0x20 {
        Ok(Instruction::Sra(rd, rs1, rs2))
    } else {
        Err(DecodeError { bits: instruction })
    }
}

fn decode_i(instruction: u32, opcode: u32) -> (r: Result<Instruction, DecodeError>)
    requires
        opcode == opcode_of(instruction),
        opcode == OPCODE_LOAD || opcode == OPCODE_SYSTEM,
    ensures
        r == match decode_spec(instruction) {
            Some(i) => Ok(i),
            None => Err(DecodeError { bits: instruction }),
        },
{
    let funct3 = get_funct3(instruction);
    let raw = instruction >> 20;
    assert(raw < 0x1000) by (bit_vector)
        requires
            raw == instruction >> 20,
    ;
    let imm: u64 = if raw < 0x800 {
        raw as u64
    } else {
        raw as u64 + 0xFFFF_FFFF_FFFF_F000
    };
    let rd = get_rd(instruction);
    let rs1 = get_rs1(instruction);
    if opcode == OPCODE_LOAD && funct3 == 0x0 {
        Ok(Instruction::Lb(rd, rs1, imm))
    } else if opcode == OPCODE_SYSTEM && funct3 == 0x0 && imm == 0x0 {
        Ok(Instruction::ECall)
    } else if opcode == OPCODE_SYSTEM && funct3 == 0x0 && imm == 0x1 {
        Ok(Instruction::EBreak)
    } else {
        Err(DecodeError { bits: instruction })
    }
}

fn get_funct3(instruction: u32) -> (r: u32)
    ensures
        r == funct3_of(instruction),
{
    (instruction >> 12) & 0x7
}

fn get_funct7(instruction: u32) -> (r: u32)
    ensures
        r == funct7_of(instruction),
{
    (instruction >> 25) & 0x7f
}

fn register_field(x: u32) -> (r: CPUReg)
    requires
        x < 32,
    ensures
        r == reg_field(x),
{
    CPUReg::from_index(x as usize)
}

fn get_rd(instruction: u32) -> (r: CPUReg)
    ensures
        r == reg_field(rd_of(instruction)),
{
    let x = (instruction >> 7) & 0x1f;
    assert(x < 32) by (bit_vector)
        requires
            x == (instruction >> 7) & 0x1f,
    ;
    register_field(x)
}

fn get_rs1(instruction: u32) -> (r: CPUReg)
    ensures
        r == reg_field(rs1_of(instruction)),
{
    let x = (instruction >> 15) & 0x1f;
    assert(x < 32) by (bit_vector)
        requires
            x == (instruction >> 15) & 0x1f,
    ;
    register_field(x)
}

fn get_rs2(instruction: u32) -> (r: CPUReg)
    ensures
        r == reg_field(rs2_of(instruction)),
{
    let x = (instruction >> 20) & 0x1f;
    assert(x < 32) by (bit_vector)
        requires
            x == (instruction >> 20) & 0x1f,
    ;
    register_field(x)
}

} // verus!
