//! The register file: the architectural integer registers, the program
//! counter, the instruction register, the flags word and the scratch registers.
use vstd::prelude::*;

use crate::bits::{bit_of, get_bit_u64, set_bit_u64, with_bit};

verus! {

broadcast use vstd::array::group_array_axioms;

/// The number of slots in the register file.
pub const REGISTER_COUNT: usize = 43;

/// Flag bit set when the last ALU result was zero.
pub const ZERO_BIT: u64 = 0;

/// Flag bit set when the last ALU operation overflowed or borrowed.
pub const CARRY_BIT: u64 = 1;

/// Flag bit set when the last ALU operation was a subtraction.
pub const SUBTRACT_BIT: u64 = 2;

#[derive(Debug, Clone, Copy, PartialEq, Eq, Structural)]
pub enum CPUReg {
    X0,
    X1,
    X2,
    X3,
    X4,
    X5,
    X6,
    X7,
    X8,
    X9,
    X10,
    X11,
    X12,
    X13,
    X14,
    X15,
    X16,
    X17,
    X18,
    X19,
    X20,
    X21,
    X22,
    X23,
    X24,
    X25,
    X26,
    X27,
    X28,
    X29,
    X30,
    X31,
    /// Program counter.
    PC,
    /// Instruction register; writing it also advances the program counter by one word.
    IR,
    /// Flags word: zero, carry and subtract in its low bits.
    F,
    /// Scratch registers for micro-operation sequences; never encoded in an instruction.
    TMP0,
    TMP1,
    TMP2,
    TMP3,
    TMP4,
    TMP5,
    TMP6,
    TMP7,
}

impl CPUReg {
    /// The slot of this register in the register file.
    pub open spec fn spec_index(self) -> nat {
        match self {
            CPUReg::X0 => 0,
            CPUReg::X1 => 1,
            CPUReg::X2 => 2,
            CPUReg::X3 => 3,
            CPUReg::X4 => 4,
            CPUReg::X5 => 5,
            CPUReg::X6 => 6,
            CPUReg::X7 => 7,
            CPUReg::X8 => 8,
            CPUReg::X9 => 9,
            CPUReg::X10 => 10,
            CPUReg::X11 => 11,
            CPUReg::X12 => 12,
            CPUReg::X13 => 13,
            CPUReg::X14 => 14,
            CPUReg::X15 => 15,
            CPUReg::X16 => 16,
            CPUReg::X17 => 17,
            CPUReg::X18 => 18,
            CPUReg::X19 => 19,
            CPUReg::X20 => 20,
            CPUReg::X21 => 21,
            CPUReg::X22 => 22,
            CPUReg::X23 => 23,
            CPUReg::X24 => 24,
            CPUReg::X25 => 25,
            CPUReg::X26 => 26,
            CPUReg::X27 => 27,
            CPUReg::X28 => 28,
            CPUReg::X29 => 29,
            CPUReg::X30 => 30,
            CPUReg::X31 => 31,
            CPUReg::PC => 32,
            CPUReg::IR => 33,
            CPUReg::F => 34,
            CPUReg::TMP0 => 35,
            CPUReg::TMP1 => 36,
            CPUReg::TMP2 => 37,
            CPUReg::TMP3 => 38,
            CPUReg::TMP4 => 39,
            CPUReg::TMP5 => 40,
            CPUReg::TMP6 => 41,
            CPUReg::TMP7 => 42,
        }
    }

    /// The register in slot `i` of the register file.
    pub open spec fn at(i: nat) -> CPUReg {
        if i == 0 {
            CPUReg::X0
        } else if i == 1 {
            CPUReg::X1
        } else if i == 2 {
            CPUReg::X2
        } else if i == 3 {
            CPUReg::X3
        } else if i == 4 {
            CPUReg::X4
        } else if i == 5 {
            CPUReg::X5
        } else if i == 6 {
            CPUReg::X6
        } else if i == 7 {
            CPUReg::X7
        } else if i == 8 {
            CPUReg::X8
        } else if i == 9 {
            CPUReg::X9
        } else if i == 10 {
            CPUReg::X10
        } else if i == 11 {
            CPUReg::X11
        } else if i == 12 {
            CPUReg::X12
        } else if i == 13 {
            CPUReg::X13
        } else if i == 14 {
            CPUReg::X14
        } else if i == 15 {
            CPUReg::X15
        } else if i == 16 {
            CPUReg::X16
        } else if i == 17 {
            CPUReg::X17
        } else if i == 18 {
            CPUReg::X18
        } else if i == 19 {
            CPUReg::X19
        } else if i == 20 {
            CPUReg::X20
        } else if i == 21 {
            CPUReg::X21
        } else if i == 22 {
            CPUReg::X22
        } else if i == 23 {
            CPUReg::X23
        } else if i == 24 {
            CPUReg::X24
        } else if i == 25 {
            CPUReg::X25
        } else if i == 26 {
            CPUReg::X26
        } else if i == 27 {
            CPUReg::X27
        } else if i == 28 {
            CPUReg::X28
        } else if i == 29 {
            CPUReg::X29
        } else if i == 30 {
            CPUReg::X30
        } else if i == 31 {
            CPUReg::X31
        } else if i == 32 {
            CPUReg::PC
        } else if i == 33 {
            CPUReg::IR
        } else if i == 34 {
            CPUReg::F
        } else if i == 35 {
            CPUReg::TMP0
        } else if i == 36 {
            CPUReg::TMP1
        } else if i == 37 {
            CPUReg::TMP2
        } else if i == 38 {
            CPUReg::TMP3
        } else if i == 39 {
            CPUReg::TMP4
        } else if i == 40 {
            CPUReg::TMP5
        } else if i == 41 {
            CPUReg::TMP6
        } else {
            CPUReg::TMP7
        }
    }

    /// Whether the register has a 5-bit encoding in an instruction.
    pub open spec fn is_architectural(self) -> bool {
        self.spec_index() < 32
    }

    /// Each register has its own slot.
    pub proof fn lemma_index_inverse(self)
        ensures
            CPUReg::at(self.spec_index()) == self,
            self.spec_index() < REGISTER_COUNT,
    {
    }

    /// The slot of this register in the register file.
    pub fn index(&self) -> (r: usize)
        ensures
            r == self.spec_index(),
    {
        match self {
            CPUReg::X0 => 0,
            CPUReg::X1 => 1,
            CPUReg::X2 => 2,
            CPUReg::X3 => 3,
            CPUReg::X4 => 4,
            CPUReg::X5 => 5,
            CPUReg::X6 => 6,
            CPUReg::X7 => 7,
            CPUReg::X8 => 8,
            CPUReg::X9 => 9,
            CPUReg::X10 => 10,
            CPUReg::X11 => 11,
            CPUReg::X12 => 12,
            CPUReg::X13 => 13,
            CPUReg::X14 => 14,
            CPUReg::X15 => 15,
            CPUReg::X16 => 16,
            CPUReg::X17 => 17,
            CPUReg::X18 => 18,
            CPUReg::X19 => 19,
            CPUReg::X20 => 20,
            CPUReg::X21 => 21,
            CPUReg::X22 => 22,
            CPUReg::X23 => 23,
            CPUReg::X24 => 24,
            CPUReg::X25 => 25,
            CPUReg::X26 => 26,
            CPUReg::X27 => 27,
            CPUReg::X28 => 28,
            CPUReg::X29 => 29,
            CPUReg::X30 => 30,
            CPUReg::X31 => 31,
            CPUReg::PC => 32,
            CPUReg::IR => 33,
            CPUReg::F => 34,
            CPUReg::TMP0 => 35,
            CPUReg::TMP1 => 36,
            CPUReg::TMP2 => 37,
            CPUReg::TMP3 => 38,
            CPUReg::TMP4 => 39,
            CPUReg::TMP5 => 40,
            CPUReg::TMP6 => 41,
            CPUReg::TMP7 => 42,
        }
    }

    /// The register in slot `value` of the register file.
    pub fn from_index(value: usize) -> (r: CPUReg)
        requires
            value < REGISTER_COUNT,
        ensures
            r.spec_index() == value,
            r == CPUReg::at(value as nat),
    {
        if value == 0 {
            CPUReg::X0
        } else if value == 1 {
            CPUReg::X1
        } else if value == 2 {
            CPUReg::X2
        } else if value == 3 {
            CPUReg::X3
        } else if value == 4 {
            CPUReg::X4
        } else if value == 5 {
            CPUReg::X5
        } else if value == 6 {
            CPUReg::X6
        } else if value == 7 {
            CPUReg::X7
        } else if value == 8 {
            CPUReg::X8
        } else if value == 9 {
            CPUReg::X9
        } else if value == 10 {
            CPUReg::X10
        } else if value == 11 {
            CPUReg::X11
        } else if value == 12 {
            CPUReg::X12
        } else if value == 13 {
            CPUReg::X13
        } else if value == 14 {
            CPUReg::X14
        } else if value == 15 {
            CPUReg::X15
        } else if value == 16 {
            CPUReg::X16
        } else if value == 17 {
            CPUReg::X17
        } else if value == 18 {
            CPUReg::X18
        } else if value == 19 {
            CPUReg::X19
        } else if value == 20 {
            CPUReg::X20
        } else if value == 21 {
            CPUReg::X21
        } else if value == 22 {
            CPUReg::X22
        } else if value == 23 {
            CPUReg::X23
        } else if value == 24 {
            CPUReg::X24
        } else if value == 25 {
            CPUReg::X25
        } else if value == 26 {
            CPUReg::X26
        } else if value == 27 {
            CPUReg::X27
        } else if value == 28 {
            CPUReg::X28
        } else if value == 29 {
            CPUReg::X29
        } else if value == 30 {
            CPUReg::X30
        } else if value == 31 {
            CPUReg::X31
        } else if value == 32 {
            CPUReg::PC
        } else if value == 33 {
            CPUReg::IR
        } else if value == 34 {
            CPUReg::F
        } else if value == 35 {
            CPUReg::TMP0
        } else if value == 36 {
            CPUReg::TMP1
        } else if value == 37 {
            CPUReg::TMP2
        } else if value == 38 {
            CPUReg::TMP3
        } else if value == 39 {
            CPUReg::TMP4
        } else if value == 40 {
            CPUReg::TMP5
        } else if value == 41 {
            CPUReg::TMP6
        } else {
            CPUReg::TMP7
        }
    }

    /// The 5-bit number of an architectural register.
    pub fn to_riscv(&self) -> (r: u8)
        requires
            self.is_architectural(),
        ensures
            r == self.spec_index(),
    {
        self.index() as u8
    }
}

/// The value that reading `r` yields: `X0` always reads zero.
pub open spec fn read_reg(regs: Seq<u64>, r: CPUReg) -> u64 {
    if r == CPUReg::X0 {
        0
    } else {
        regs[r.spec_index() as int]
    }
}

/// The register file after writing `v` to `r`: a write to `X0` is dropped, and
/// a write to `IR` also advances `PC` by four, wrapping.
pub open spec fn write_reg(regs: Seq<u64>, r: CPUReg, v: u64) -> Seq<u64> {
    if r == CPUReg::X0 {
        regs
    } else if r == CPUReg::IR {
        let pc = CPUReg::PC.spec_index() as int;
        regs.update(pc, ((regs[pc] + 4) % 0x1_0000_0000_0000_0000) as u64).update(
            CPUReg::IR.spec_index() as int,
            v,
        )
    } else {
        regs.update(r.spec_index() as int, v)
    }
}

/// The flags word `f` with zero, carry and subtract set as given.
pub open spec fn with_flags(f: u64, zero: bool, carry: bool, subtract: bool) -> u64 {
    with_bit(with_bit(with_bit(f, CARRY_BIT, carry), ZERO_BIT, zero), SUBTRACT_BIT, subtract)
}

/// Writing then reading an architectural register other than `X0` gives the
/// value written; writing `X0` changes nothing and it still reads zero.
pub proof fn lemma_write_then_read(regs: Seq<u64>, r: CPUReg, v: u64)
    requires
        regs.len() == REGISTER_COUNT,
        r.is_architectural(),
    ensures
        r != CPUReg::X0 ==> read_reg(write_reg(regs, r, v), r) == v,
        r == CPUReg::X0 ==> read_reg(write_reg(regs, r, v), r) == 0 && write_reg(regs, r, v) == regs,
{
}

pub struct CPURegisters {
    registers: [u64; REGISTER_COUNT],
}

impl View for CPURegisters {
    type V = Seq<u64>;

    closed spec fn view(&self) -> Seq<u64> {
        self.registers@
    }
}

impl CPURegisters {
    /// A register file with every slot zero.
    pub fn new() -> (r: Self)
        ensures
            r@ == Seq::new(REGISTER_COUNT as nat, |i: int| 0u64),
    {
        let r = CPURegisters { registers: [0u64; REGISTER_COUNT] };
        assert(r@ =~= Seq::new(REGISTER_COUNT as nat, |i: int| 0u64));
        r
    }

    /// The register file always has one slot per register.
    pub proof fn lemma_len(&self)
        ensures
            self@.len() == REGISTER_COUNT,
    {
    }
}

/// Access to a register file, by whatever holds one.
pub trait CPURegistersAccessTrait: Sized {
    /// The register file that is accessed.
    spec fn register_file(&self) -> Seq<u64>;

    fn get_registers(&self) -> (r: &CPURegisters)
        ensures
            r@ == self.register_file(),
    ;

    /// Replaces every slot with those of `registers`.
    fn set_registers(&mut self, registers: CPURegisters)
        ensures
            final(self).register_file() == registers@,
    ;

    fn get_register(&self, reg: CPUReg) -> (r: u64)
        ensures
            r == read_reg(self.register_file(), reg),
    ;

    fn set_register(&mut self, reg: CPUReg, value: u64)
        ensures
            final(self).register_file() == write_reg(old(self).register_file(), reg, value),
    ;
}

impl CPURegistersAccessTrait for CPURegisters {
    open spec fn register_file(&self) -> Seq<u64> {
        self@
    }

    fn get_registers(&self) -> (r: &CPURegisters) {
        self
    }

    fn set_registers(&mut self, registers: CPURegisters) {
        self.registers = registers.registers;
    }

    fn get_register(&self, reg: CPUReg) -> (r: u64) {
        if reg == CPUReg::X0 {
            0
        } else {
            self.registers[reg.index()]
        }
    }

    fn set_register(&mut self, reg: CPUReg, value: u64) {
        if reg == CPUReg::X0 {
            return;
        }
        if reg == CPUReg::IR {
            let pc = self.registers[CPUReg::PC.index()].wrapping_add(4);
            self.registers[CPUReg::PC.index()] = pc;
        }
        self.registers[reg.index()] = value;
    }
}

/// Access to a flags word, by whatever holds one.
pub trait CPUFlagsAccessTrait: Sized {
    /// The flags word that is accessed.
    spec fn flags_word(&self) -> u64;

    fn get_flags(&self) -> (r: u64)
        ensures
            r == self.flags_word(),
    ;

    fn set_flags(&mut self, value: u64)
        ensures
            final(self).flags_word() == value,
    ;

    fn get_zero(&self) -> (r: bool)
        ensures
            r == bit_of(self.flags_word(), ZERO_BIT),
    {
        get_bit_u64(self.get_flags(), ZERO_BIT)
    }

    fn set_zero(&mut self, value: bool)
        ensures
            final(self).flags_word() == with_bit(old(self).flags_word(), ZERO_BIT, value),
    {
        let f = self.get_flags();
        self.set_flags(set_bit_u64(f, ZERO_BIT, value))
    }

    fn get_carry(&self) -> (r: bool)
        ensures
            r == bit_of(self.flags_word(), CARRY_BIT),
    {
        get_bit_u64(self.get_flags(), CARRY_BIT)
    }

    fn set_carry(&mut self, value: bool)
        ensures
            final(self).flags_word() == with_bit(old(self).flags_word(), CARRY_BIT, value),
    {
        let f = self.get_flags();
        self.set_flags(set_bit_u64(f, CARRY_BIT, value))
    }

    fn get_subtract(&self) -> (r: bool)
        ensures
            r == bit_of(self.flags_word(), SUBTRACT_BIT),
    {
        get_bit_u64(self.get_flags(), SUBTRACT_BIT)
    }

    fn set_subtract(&mut self, value: bool)
        ensures
            final(self).flags_word() == with_bit(old(self).flags_word(), SUBTRACT_BIT, value),
    {
        let f = self.get_flags();
        self.set_flags(set_bit_u64(f, SUBTRACT_BIT, value))
    }
}

impl CPUFlagsAccessTrait for CPURegisters {
    open spec fn flags_word(&self) -> u64 {
        self@[CPUReg::F.spec_index() as int]
    }

    fn get_flags(&self) -> (r: u64) {
        let i = CPUReg::F.index();
        assert(self.flags_word() == self.registers@[i as int]);
        self.registers[i]
    }

    fn set_flags(&mut self, value: u64)
        ensures
            final(self)@ == old(self)@.update(CPUReg::F.spec_index() as int, value),
    {
        self.registers[CPUReg::F.index()] = value;
    }
}

/// A flags word on its own.
#[derive(Debug, Copy, Clone, PartialEq, Eq, Structural)]
pub struct CPUFlags(u64);

impl CPUFlags {
    /// A flags word with every flag clear.
    pub fn new() -> (r: Self)
        ensures
            r.flags_word() == 0,
    {
        CPUFlags(0)
    }
}

impl CPUFlagsAccessTrait for CPUFlags {
    closed spec fn flags_word(&self) -> u64 {
        self.0
    }

    fn get_flags(&self) -> (r: u64) {
        self.0
    }

    fn set_flags(&mut self, value: u64) {
        self.0 = value;
    }
}

/// Builds a register file one register at a time.
pub struct CPURegistersBuilder {
    registers: CPURegisters,
}

impl CPURegistersBuilder {
    /// A builder whose register file is all zero.
    pub fn new() -> (r: Self)
        ensures
            r.register_file() == Seq::new(REGISTER_COUNT as nat, |i: int| 0u64),
    {
        CPURegistersBuilder { registers: CPURegisters::new() }
    }

    pub fn build(self) -> (r: CPURegisters)
        ensures
            r@ == self.register_file(),
    {
        self.registers
    }
}

impl CPURegistersAccessTrait for CPURegistersBuilder {
    closed spec fn register_file(&self) -> Seq<u64> {
        self.registers@
    }

    fn get_registers(&self) -> (r: &CPURegisters) {
        &self.registers
    }

    fn set_registers(&mut self, registers: CPURegisters) {
        self.registers.set_registers(registers);
    }

    fn get_register(&self, reg: CPUReg) -> (r: u64) {
        self.registers.get_register(reg)
    }

    fn set_register(&mut self, reg: CPUReg, value: u64) {
        self.registers.set_register(reg, value);
    }
}

impl CPURegistersBuilderTrait for CPURegistersBuilder {}

/// Builder steps that set one register, or one flag, and hand the builder back.
pub trait CPURegistersBuilderTrait: CPURegistersAccessTrait + Sized {
    fn x0(self, value: u64) -> (r: Self)
        ensures
            r.register_file() == write_reg(self.register_file(), CPUReg::X0, value),
    {
        let mut b = self;
        b.set_register(CPUReg::X0, value);
        b
    }

    fn x1(self, value: u64) -> (r: Self)
        ensures
            r.register_file() == write_reg(self.register_file(), CPUReg::X1, value),
    {
        let mut b = self;
        b.set_register(CPUReg::X1, value);
        b
    }

    fn x2(self, value: u64) -> (r: Self)
        ensures
            r.register_file() == write_reg(self.register_file(), CPUReg::X2, value),
    {
        let mut b = self;
        b.set_register(CPUReg::X2, value);
        b
    }

    fn x3(self, value: u64) -> (r: Self)
        ensures
            r.register_file() == write_reg(self.register_file(), CPUReg::X3, value),
    {
        let mut b = self;
        b.set_register(CPUReg::X3, value);
        b
    }

    fn x4(self, value: u64) -> (r: Self)
        ensures
            r.register_file() == write_reg(self.register_file(), CPUReg::X4, value),
    {
        let mut b = self;
        b.set_register(CPUReg::X4, value);
        b
    }

    fn x5(self, value: u64) -> (r: Self)
        ensures
            r.register_file() == write_reg(self.register_file(), CPUReg::X5, value),
    {
        let mut b = self;
        b.set_register(CPUReg::X5, value);
        b
    }

    fn x6(self, value: u64) -> (r: Self)
        ensures
            r.register_file() == write_reg(self.register_file(), CPUReg::X6, value),
    {
        let mut b = self;
        b.set_register(CPUReg::X6, value);
        b
    }

    fn x7(self, value: u64) -> (r: Self)
        ensures
            r.register_file() == write_reg(self.register_file(), CPUReg::X7, value),
    {
        let mut b = self;
        b.set_register(CPUReg::X7, value);
        b
    }

    fn x8(self, value: u64) -> (r: Self)
        ensures
            r.register_file() == write_reg(self.register_file(), CPUReg::X8, value),
    {
        let mut b = self;
        b.set_register(CPUReg::X8, value);
        b
    }

    fn x9(self, value: u64) -> (r: Self)
        ensures
            r.register_file() == write_reg(self.register_file(), CPUReg::X9, value),
    {
        let mut b = self;
        b.set_register(CPUReg::X9, value);
        b
    }

    fn x10(self, value: u64) -> (r: Self)
        ensures
            r.register_file() == write_reg(self.register_file(), CPUReg::X10, value),
    {
        let mut b = self;
        b.set_register(CPUReg::X10, value);
        b
    }

    fn x11(self, value: u64) -> (r: Self)
        ensures
            r.register_file() == write_reg(self.register_file(), CPUReg::X11, value),
    {
        let mut b = self;
        b.set_register(CPUReg::X11, value);
        b
    }

    fn x12(self, value: u64) -> (r: Self)
        ensures
            r.register_file() == write_reg(self.register_file(), CPUReg::X12, value),
    {
        let mut b = self;
        b.set_register(CPUReg::X12, value);
        b
    }

    fn x13(self, value: u64) -> (r: Self)
        ensures
            r.register_file() == write_reg(self.register_file(), CPUReg::X13, value),
    {
        let mut b = self;
        b.set_register(CPUReg::X13, value);
        b
    }

    fn x14(self, value: u64) -> (r: Self)
        ensures
            r.register_file() == write_reg(self.register_file(), CPUReg::X14, value),
    {
        let mut b = self;
        b.set_register(CPUReg::X14, value);
        b
    }

    fn x15(self, value: u64) -> (r: Self)
        ensures
            r.register_file() == write_reg(self.register_file(), CPUReg::X15, value),
    {
        let mut b = self;
        b.set_register(CPUReg::X15, value);
        b
    }

    fn x16(self, value: u64) -> (r: Self)
        ensures
            r.register_file() == write_reg(self.register_file(), CPUReg::X16, value),
    {
        let mut b = self;
        b.set_register(CPUReg::X16, value);
        b
    }

    fn x17(self, value: u64) -> (r: Self)
        ensures
            r.register_file() == write_reg(self.register_file(), CPUReg::X17, value),
    {
        let mut b = self;
        b.set_register(CPUReg::X17, value);
        b
    }

    fn x18(self, value: u64) -> (r: Self)
        ensures
            r.register_file() == write_reg(self.register_file(), CPUReg::X18, value),
    {
        let mut b = self;
        b.set_register(CPUReg::X18, value);
        b
    }

    fn x19(self, value: u64) -> (r: Self)
        ensures
            r.register_file() == write_reg(self.register_file(), CPUReg::X19, value),
    {
        let mut b = self;
        b.set_register(CPUReg::X19, value);
        b
    }

    fn x20(self, value: u64) -> (r: Self)
        ensures
            r.register_file() == write_reg(self.register_file(), CPUReg::X20, value),
    {
        let mut b = self;
        b.set_register(CPUReg::X20, value);
        b
    }

    fn x21(self, value: u64) -> (r: Self)
        ensures
            r.register_file() == write_reg(self.register_file(), CPUReg::X21, value),
    {
        let mut b = self;
        b.set_register(CPUReg::X21, value);
        b
    }

    fn x22(self, value: u64) -> (r: Self)
        ensures
            r.register_file() == write_reg(self.register_file(), CPUReg::X22, value),
    {
        let mut b = self;
        b.set_register(CPUReg::X22, value);
        b
    }

    fn x23(self, value: u64) -> (r: Self)
        ensures
            r.register_file() == write_reg(self.register_file(), CPUReg::X23, value),
    {
        let mut b = self;
        b.set_register(CPUReg::X23, value);
        b
    }

    fn x24(self, value: u64) -> (r: Self)
        ensures
            r.register_file() == write_reg(self.register_file(), CPUReg::X24, value),
    {
        let mut b = self;
        b.set_register(CPUReg::X24, value);
        b
    }

    fn x25(self, value: u64) -> (r: Self)
        ensures
            r.register_file() == write_reg(self.register_file(), CPUReg::X25, value),
    {
        let mut b = self;
        b.set_register(CPUReg::X25, value);
        b
    }

    fn x26(self, value: u64) -> (r: Self)
        ensures
            r.register_file() == write_reg(self.register_file(), CPUReg::X26, value),
    {
        let mut b = self;
        b.set_register(CPUReg::X26, value);
        b
    }

    fn x27(self, value: u64) -> (r: Self)
        ensures
            r.register_file() == write_reg(self.register_file(), CPUReg::X27, value),
    {
        let mut b = self;
        b.set_register(CPUReg::X27, value);
        b
    }

    fn x28(self, value: u64) -> (r: Self)
        ensures
            r.register_file() == write_reg(self.register_file(), CPUReg::X28, value),
    {
        let mut b = self;
        b.set_register(CPUReg::X28, value);
        b
    }

    fn x29(self, value: u64) -> (r: Self)
        ensures
            r.register_file() == write_reg(self.register_file(), CPUReg::X29, value),
    {
        let mut b = self;
        b.set_register(CPUReg::X29, value);
        b
    }

    fn x30(self, value: u64) -> (r: Self)
        ensures
            r.register_file() == write_reg(self.register_file(), CPUReg::X30, value),
    {
        let mut b = self;
        b.set_register(CPUReg::X30, value);
        b
    }

    fn x31(self, value: u64) -> (r: Self)
        ensures
            r.register_file() == write_reg(self.register_file(), CPUReg::X31, value),
    {
        let mut b = self;
        b.set_register(CPUReg::X31, value);
        b
    }

    fn pc(self, value: u64) -> (r: Self)
        ensures
            r.register_file() == write_reg(self.register_file(), CPUReg::PC, value),
    {
        let mut b = self;
        b.set_register(CPUReg::PC, value);
        b
    }

    fn ir(self, value: u64) -> (r: Self)
        ensures
            r.register_file() == write_reg(self.register_file(), CPUReg::IR, value),
    {
        let mut b = self;
        b.set_register(CPUReg::IR, value);
        b
    }

    fn tmp0(self, value: u64) -> (r: Self)
        ensures
            r.register_file() == write_reg(self.register_file(), CPUReg::TMP0, value),
    {
        let mut b = self;
        b.set_register(CPUReg::TMP0, value);
        b
    }

    fn tmp1(self, value: u64) -> (r: Self)
        ensures
            r.register_file() == write_reg(self.register_file(), CPUReg::TMP1, value),
    {
        let mut b = self;
        b.set_register(CPUReg::TMP1, value);
        b
    }

    fn tmp2(self, value: u64) -> (r: Self)
        ensures
            r.register_file() == write_reg(self.register_file(), CPUReg::TMP2, value),
    {
        let mut b = self;
        b.set_register(CPUReg::TMP2, value);
        b
    }

    fn tmp3(self, value: u64) -> (r: Self)
        ensures
            r.register_file() == write_reg(self.register_file(), CPUReg::TMP3, value),
    {
        let mut b = self;
        b.set_register(CPUReg::TMP3, value);
        b
    }

    fn tmp4(self, value: u64) -> (r: Self)
        ensures
            r.register_file() == write_reg(self.register_file(), CPUReg::TMP4, value),
    {
        let mut b = self;
        b.set_register(CPUReg::TMP4, value);
        b
    }

    fn tmp5(self, value: u64) -> (r: Self)
        ensures
            r.register_file() == write_reg(self.register_file(), CPUReg::TMP5, value),
    {
        let mut b = self;
        b.set_register(CPUReg::TMP5, value);
        b
    }

    fn tmp6(self, value: u64) -> (r: Self)
        ensures
            r.register_file() == write_reg(self.register_file(), CPUReg::TMP6, value),
    {
        let mut b = self;
        b.set_register(CPUReg::TMP6, value);
        b
    }

    fn tmp7(self, value: u64) -> (r: Self)
        ensures
            r.register_file() == write_reg(self.register_file(), CPUReg::TMP7, value),
    {
        let mut b = self;
        b.set_register(CPUReg::TMP7, value);
        b
    }

    /// Sets the zero flag to `value`, keeping the other flags.
    fn zero(self, value: bool) -> (r: Self)
        ensures
            r.register_file() == write_reg(
                self.register_file(),
                CPUReg::F,
                with_bit(read_reg(self.register_file(), CPUReg::F), ZERO_BIT, value),
            ),
    {
        let mut b = self;
        let f = b.get_register(CPUReg::F);
        b.set_register(CPUReg::F, set_bit_u64(f, ZERO_BIT, value));
        b
    }

    /// Sets the carry flag to `value`, keeping the other flags.
    fn carry(self, value: bool) -> (r: Self)
        ensures
            r.register_file() == write_reg(
                self.register_file(),
                CPUReg::F,
                with_bit(read_reg(self.register_file(), CPUReg::F), CARRY_BIT, value),
            ),
    {
        let mut b = self;
        let f = b.get_register(CPUReg::F);
        b.set_register(CPUReg::F, set_bit_u64(f, CARRY_BIT, value));
        b
    }

    /// Sets the subtract flag to `value`, keeping the other flags.
    fn subtract(self, value: bool) -> (r: Self)
        ensures
            r.register_file() == write_reg(
                self.register_file(),
                CPUReg::F,
                with_bit(read_reg(self.register_file(), CPUReg::F), SUBTRACT_BIT, value),
            ),
    {
        let mut b = self;
        let f = b.get_register(CPUReg::F);
        b.set_register(CPUReg::F, set_bit_u64(f, SUBTRACT_BIT, value));
        b
    }
}

} // verus!
