//! The CPU: a register file and a queue of micro-operations, of which each
//! tick executes exactly one. An empty queue is refilled with the fetch
//! sequence; decoding replaces the queue with the instruction's sequence.
use std::collections::VecDeque;
use vstd::prelude::*;

use crate::address::Address;
use crate::bus::{Bus, BusOwner, BusStatus, BusView};
use crate::decompose::{decompose_instruction, decompose_spec};
use crate::instruction::{decode_spec, DecodeError};
use crate::micro_op::{fetch_sequence, MicroOp, MicroOpResponse};
use crate::registers::{
    read_reg, with_flags, write_reg, CARRY_BIT, CPUFlagsAccessTrait, CPUReg, CPURegisters,
    CPURegistersAccessTrait, CPURegistersBuilderTrait, REGISTER_COUNT, SUBTRACT_BIT, ZERO_BIT,
};

verus! {

broadcast use vstd::std_specs::vecdeque::group_vec_dequeue_axioms;

/// The state of a CPU as the contracts see it.
pub struct CpuView {
    pub regs: Seq<u64>,
    pub queue: Seq<MicroOp>,
    pub halted: bool,
    pub fault: Option<DecodeError>,
}

/// The low byte of `d`, sign-extended to 64 bits.
pub open spec fn sign_extend_byte(d: u64) -> u64 {
    let b = d % 0x100;
    if b < 0x80 {
        b as u64
    } else {
        (b + 0xFFFF_FFFF_FFFF_FF00) as u64
    }
}

/// The low two bytes of `d`, sign-extended to 64 bits.
pub open spec fn sign_extend_half_word(d: u64) -> u64 {
    let h = d % 0x1_0000;
    if h < 0x8000 {
        h as u64
    } else {
        (h + 0xFFFF_FFFF_FFFF_0000) as u64
    }
}

/// The low four bytes of `d`, sign-extended to 64 bits.
pub open spec fn sign_extend_word(d: u64) -> u64 {
    let w = d % 0x1_0000_0000;
    if w < 0x8000_0000 {
        w as u64
    } else {
        (w + 0xFFFF_FFFF_0000_0000) as u64
    }
}

/// `a` shifted right by `s`, filling with copies of its sign bit.
pub open spec fn arith_shift_right(a: u64, s: u64) -> u64 {
    if a < 0x8000_0000_0000_0000 {
        a >> s
    } else {
        !((!a) >> s)
    }
}

/// The destination and the two source registers of an ALU micro-operation.
pub open spec fn alu_operands(op: MicroOp) -> (CPUReg, CPUReg, CPUReg) {
    match op {
        MicroOp::ALUAdd(rd, rs1, rs2) | MicroOp::ALUSub(rd, rs1, rs2) | MicroOp::ALUAnd(rd, rs1, rs2)
        | MicroOp::ALUOr(rd, rs1, rs2) | MicroOp::ALUXor(rd, rs1, rs2) | MicroOp::ALUSll(rd, rs1, rs2)
        | MicroOp::ALUSrl(rd, rs1, rs2) | MicroOp::ALUSra(rd, rs1, rs2) => (rd, rs1, rs2),
        _ => (CPUReg::X0, CPUReg::X0, CPUReg::X0),
    }
}

/// The result, carry and subtract flag of an ALU micro-operation on `a` and
/// `b`. Addition saturates at the largest value and subtraction at zero, each
/// setting carry; a shift takes its amount from the low six bits of `b`.
pub open spec fn alu_outcome(op: MicroOp, a: u64, b: u64) -> (u64, bool, bool) {
    match op {
        MicroOp::ALUAdd(..) => if a + b > u64::MAX {
            (u64::MAX, true, false)
        } else {
            ((a + b) as u64, false, false)
        },
        MicroOp::ALUSub(..) => if a < b {
            (0, true, true)
        } else {
            ((a - b) as u64, false, true)
        },
        MicroOp::ALUAnd(..) => (a & b, false, false),
        MicroOp::ALUOr(..) => (a | b, false, false),
        MicroOp::ALUXor(..) => (a ^ b, false, false),
        MicroOp::ALUSll(..) => (a << (b % 64), false, false),
        MicroOp::ALUSrl(..) => (a >> (b % 64), false, false),
        MicroOp::ALUSra(..) => (arith_shift_right(a, b % 64), false, false),
        _ => (0, false, false),
    }
}

/// The register file after an ALU micro-operation: the result goes to the
/// destination, then zero, carry and subtract are all set anew.
pub open spec fn alu_step(regs: Seq<u64>, op: MicroOp) -> Seq<u64> {
    let (rd, rs1, rs2) = alu_operands(op);
    let (result, carry, subtract) = alu_outcome(op, read_reg(regs, rs1), read_reg(regs, rs2));
    let written = write_reg(regs, rd, result);
    let f = CPUReg::F.spec_index() as int;
    written.update(f, with_flags(written[f], result == 0, carry, subtract))
}

/// The instruction word held in `IR`.
pub open spec fn instruction_word(regs: Seq<u64>) -> u32 {
    (read_reg(regs, CPUReg::IR) % 0x1_0000_0000) as u32
}

/// The CPU after decoding: the queue becomes the instruction's micro-operations,
/// or, for a word that is no instruction, the CPU stops with that word as its fault.
pub open spec fn decode_step(s: CpuView) -> CpuView {
    let bits = instruction_word(s.regs);
    match decode_spec(bits) {
        Some(i) => CpuView { queue: decompose_spec(i), ..s },
        None => CpuView {
            queue: Seq::empty(),
            halted: true,
            fault: Some(DecodeError { bits }),
            ..s
        },
    }
}

/// The response that a plain micro-operation gives.
pub open spec fn proceed() -> MicroOpResponse {
    MicroOpResponse { repeat: false, halt: false }
}

/// The effect of executing `op` on CPU `s` and bus `b`, and its response.
pub open spec fn step_spec(s: CpuView, b: BusView, op: MicroOp) -> (CpuView, BusView, MicroOpResponse) {
    let cpu = BusOwner::CPU;
    match op {
        MicroOp::Stall => (s, b, proceed()),
        MicroOp::Halt => (CpuView { halted: true, ..s }, b, MicroOpResponse { repeat: false, halt: true }),
        MicroOp::Decode => {
            let failed = decode_spec(instruction_word(s.regs)) is None;
            (decode_step(s), b, MicroOpResponse { repeat: false, halt: failed })
        },
        MicroOp::BusRelease => (s, b.release_spec(cpu).0, proceed()),
        MicroOp::BusTake => {
            let (b2, ok) = b.take_spec(cpu);
            (s, b2, MicroOpResponse { repeat: !ok, halt: false })
        },
        MicroOp::BusReadByte(r) => (CpuView { regs: write_reg(s.regs, r, sign_extend_byte(b.data)), ..s }, b, proceed()),
        MicroOp::BusReadHalfWord(r) => (CpuView { regs: write_reg(s.regs, r, sign_extend_half_word(b.data)), ..s }, b, proceed()),
        MicroOp::BusReadWord(r) => (CpuView { regs: write_reg(s.regs, r, sign_extend_word(b.data)), ..s }, b, proceed()),
        MicroOp::BusReadDoubleWord(r) => (CpuView { regs: write_reg(s.regs, r, b.data), ..s }, b, proceed()),
        MicroOp::BusWriteAddress(r) => (s, b.put_address_spec(read_reg(s.regs, r), cpu).0, proceed()),
        MicroOp::BusWriteData(r) => (s, b.put_data_spec(read_reg(s.regs, r), cpu).0, proceed()),
        MicroOp::BusSetRead => (s, b.put_status_spec(BusStatus::Read, cpu).0, proceed()),
        MicroOp::BusSetWriteByte => (s, b.put_status_spec(BusStatus::WriteByte, cpu).0, proceed()),
        MicroOp::BusSetWriteHalfWord => (s, b.put_status_spec(BusStatus::WriteHalfWord, cpu).0, proceed()),
        MicroOp::BusSetWriteWord => (s, b.put_status_spec(BusStatus::WriteWord, cpu).0, proceed()),
        MicroOp::BusSetWriteDoubleWord => (s, b.put_status_spec(BusStatus::WriteDoubleWord, cpu).0, proceed()),
        MicroOp::RegisterLoadImm(r, imm) => (CpuView { regs: write_reg(s.regs, r, imm), ..s }, b, proceed()),
        _ => (CpuView { regs: alu_step(s.regs, op), ..s }, b, proceed()),
    }
}

/// One tick: a halted CPU does nothing; otherwise the queue, refilled with the
/// fetch sequence if empty, gives up its first micro-operation, which is
/// executed and, if it asks to be repeated, put back at the front. The result
/// is whether the CPU goes on running.
pub open spec fn tick_spec(s: CpuView, b: BusView) -> (CpuView, BusView, bool) {
    if s.halted {
        (s, b, false)
    } else {
        let q = if s.queue.len() == 0 {
            fetch_sequence()
        } else {
            s.queue
        };
        let op = q[0];
        let (s2, b2, response) = step_spec(CpuView { queue: q.drop_first(), ..s }, b, op);
        let s3 = if response.repeat {
            CpuView { queue: seq![op] + s2.queue, ..s2 }
        } else {
            s2
        };
        (s3, b2, !response.halt)
    }
}

/// A halted CPU stays halted: every later tick returns false and changes
/// neither the CPU nor the bus.
pub proof fn lemma_halted_is_terminal(s: CpuView, b: BusView)
    requires
        s.halted,
    ensures
        tick_spec(s, b) == (s, b, false),
{
}

/// A tick that executes `Halt` returns false and leaves the CPU halted.
pub proof fn lemma_halt_stops(s: CpuView, b: BusView)
    requires
        !s.halted,
        s.queue.len() > 0,
        s.queue[0] == MicroOp::Halt,
    ensures
        !tick_spec(s, b).2,
        tick_spec(s, b).0.halted,
        tick_spec(s, b).1 == b,
{
}

/// An add saturates at the largest value with carry set, and a subtraction
/// that would borrow saturates at zero with carry set.
pub proof fn lemma_alu_saturates(rd: CPUReg, rs1: CPUReg, rs2: CPUReg, a: u64, b: u64)
    ensures
        a + b > u64::MAX ==> alu_outcome(MicroOp::ALUAdd(rd, rs1, rs2), a, b) == (u64::MAX, true, false),
        a + b <= u64::MAX ==> alu_outcome(MicroOp::ALUAdd(rd, rs1, rs2), a, b) == ((a + b) as u64, false, false),
        a < b ==> alu_outcome(MicroOp::ALUSub(rd, rs1, rs2), a, b) == (0u64, true, true),
        a >= b ==> alu_outcome(MicroOp::ALUSub(rd, rs1, rs2), a, b) == ((a - b) as u64, false, true),
{
}

pub struct CPU {
    registers: CPURegisters,
    micro_op_queue: VecDeque<MicroOp>,
    halted: bool,
    fault: Option<DecodeError>,
}

impl View for CPU {
    type V = CpuView;

    closed spec fn view(&self) -> CpuView {
        CpuView {
            regs: self.registers@,
            queue: self.micro_op_queue@,
            halted: self.halted,
            fault: self.fault,
        }
    }
}

/// `f` with zero, carry and subtract set as given.
fn flags_after(f: u64, zero: bool, carry: bool, subtract: bool) -> (r: u64)
    ensures
        r == with_flags(f, zero, carry, subtract),
{
    let f1 = crate::bits::set_bit_u64(f, CARRY_BIT, carry);
    let f2 = crate::bits::set_bit_u64(f1, ZERO_BIT, zero);
    crate::bits::set_bit_u64(f2, SUBTRACT_BIT, subtract)
}

impl CPU {
    /// A running CPU with every register zero and an empty queue.
    pub fn new() -> (r: CPU)
        ensures
            r@ == (CpuView {
                regs: Seq::new(REGISTER_COUNT as nat, |i: int| 0u64),
                queue: Seq::empty(),
                halted: false,
                fault: None,
            }),
    {
        CPU {
            registers: CPURegisters::new(),
            micro_op_queue: VecDeque::new(),
            halted: false,
            fault: None,
        }
    }

    pub fn builder() -> (r: CPUBuilder)
        ensures
            r.register_file() == Seq::new(REGISTER_COUNT as nat, |i: int| 0u64),
    {
        CPUBuilder::new()
    }

    /// Whether the CPU has stopped, by a halt or a failed decode.
    pub fn is_halted(&self) -> (r: bool)
        ensures
            r == self@.halted,
    {
        self.halted
    }

    /// The word that failed to decode, if that is why the CPU stopped.
    pub fn fault(&self) -> (r: Option<DecodeError>)
        ensures
            r == self@.fault,
    {
        self.fault
    }

    /// Executes one micro-operation; returns whether the CPU goes on running.
    pub fn tick(&mut self, bus: &mut Bus) -> (r: bool)
        ensures
            (final(self)@, final(bus)@, r) == tick_spec(old(self)@, old(bus)@),
    {
        if self.halted {
            return false;
        }
        if self.micro_op_queue.len() == 0 {
            self.micro_op_queue = MicroOp::default_queue();
        }
        let micro_op = self.micro_op_queue.pop_front().unwrap();
        let response = self.execute(bus, micro_op);
        if response.repeat {
            self.micro_op_queue.push_front(micro_op);
        }
        !response.halt
    }
}

/// Micro operations
impl CPU {

    /// Executes `micro_op` against the registers and the bus.
    #[verifier::rlimit(80)]
    fn execute(&mut self, bus: &mut Bus, micro_op: MicroOp) -> (r: MicroOpResponse)
        ensures
            (final(self)@, final(bus)@, r) == step_spec(old(self)@, old(bus)@, micro_op),
    {
        match micro_op {
            MicroOp::Stall => self.mo_stall(),
            MicroOp::Halt => self.mo_halt(),
            MicroOp::BusRelease => self.mo_bus_release(bus),
            MicroOp::BusTake => self.mo_bus_take(bus),
            MicroOp::BusReadByte(register) => self.mo_bus_read_byte(bus, register),
            MicroOp::BusReadHalfWord(register) => self.mo_bus_read_half_word(bus, register),
            MicroOp::BusReadWord(register) => self.mo_bus_read_word(bus, register),
            MicroOp::BusReadDoubleWord(register) => self.mo_bus_read_double_word(bus, register),
            MicroOp::BusWriteAddress(register) => self.mo_bus_write_address(bus, register),
            MicroOp::BusWriteData(register) => self.mo_bus_write_data(bus, register),
            MicroOp::BusSetRead => self.mo_bus_set_read(bus),
            MicroOp::BusSetWriteByte => self.mo_bus_set_write_byte(bus),
            MicroOp::BusSetWriteHalfWord => self.mo_bus_set_write_half_word(bus),
            MicroOp::BusSetWriteWord => self.mo_bus_set_write_word(bus),
            MicroOp::BusSetWriteDoubleWord => self.mo_bus_set_write_double_word(bus),
            MicroOp::Decode => self.mo_decode(),
            MicroOp::ALUAdd(rd, rs1, rs2) => self.mo_alu_add(rd, rs1, rs2),
            MicroOp::ALUSub(rd, rs1, rs2) => self.mo_alu_sub(rd, rs1, rs2),
            MicroOp::ALUAnd(rd, rs1, rs2) => self.mo_alu_and(rd, rs1, rs2),
            MicroOp::ALUOr(rd, rs1, rs2) => self.mo_alu_or(rd, rs1, rs2),
            MicroOp::ALUXor(rd, rs1, rs2) => self.mo_alu_xor(rd, rs1, rs2),
            MicroOp::ALUSll(rd, rs1, rs2) => self.mo_alu_sll(rd, rs1, rs2),
            MicroOp::ALUSrl(rd, rs1, rs2) => self.mo_alu_srl(rd, rs1, rs2),
            MicroOp::ALUSra(rd, rs1, rs2) => self.mo_alu_sra(rd, rs1, rs2),
            MicroOp::RegisterLoadImm(register, imm) => self.mo_register_load_imm(register, imm),
        }
    }

    fn mo_stall(&self) -> (r: MicroOpResponse)
        ensures
            r == proceed(),
    {
        MicroOpResponse::new()
    }

    fn mo_halt(&mut self) -> (r: MicroOpResponse)
        ensures
            final(self)@ == (CpuView { halted: true, ..old(self)@ }),
            r == (MicroOpResponse { repeat: false, halt: true }),
    {
        self.halted = true;
        MicroOpResponse::new_halt()
    }

    fn mo_bus_release(&mut self, bus: &mut Bus) -> (r: MicroOpResponse)
        ensures
            final(self)@ == old(self)@,
            final(bus)@ == old(bus)@.release_spec(BusOwner::CPU).0,
            r == proceed(),
    {
        bus.release_ownership(BusOwner::CPU);
        MicroOpResponse::new()
    }

    /// Asks for the bus; if it is not free, asks to be tried again next tick.
    fn mo_bus_take(&mut self, bus: &mut Bus) -> (r: MicroOpResponse)
        ensures
            final(self)@ == old(self)@,
            final(bus)@ == old(bus)@.take_spec(BusOwner::CPU).0,
            r == (MicroOpResponse { repeat: !old(bus)@.take_spec(BusOwner::CPU).1, halt: false }),
    {
        let success = bus.take_ownership(BusOwner::CPU);
        if success {
            MicroOpResponse::new()
        } else {
            MicroOpResponse::new_repeat()
        }
    }

    /// Puts the value of `register` on the bus as the address; ignored by the
    /// bus unless the CPU holds it.
    fn mo_bus_write_address(&mut self, bus: &mut Bus, register: CPUReg) -> (r: MicroOpResponse)
        ensures
            final(self)@ == old(self)@,
            final(bus)@ == old(bus)@.put_address_spec(read_reg(old(self)@.regs, register), BusOwner::CPU).0,
            r == proceed(),
    {
        let address = Address::new(self.registers.get_register(register));
        bus.put_address(address, BusOwner::CPU);
        MicroOpResponse::new()
    }

    /// Puts the value of `register` on the bus as data; ignored by the bus
    /// unless the CPU holds it.
    fn mo_bus_write_data(&mut self, bus: &mut Bus, register: CPUReg) -> (r: MicroOpResponse)
        ensures
            final(self)@ == old(self)@,
            final(bus)@ == old(bus)@.put_data_spec(read_reg(old(self)@.regs, register), BusOwner::CPU).0,
            r == proceed(),
    {
        let value = self.registers.get_register(register);
        bus.put_data(value, BusOwner::CPU);
        MicroOpResponse::new()
    }

    fn mo_bus_read_byte(&mut self, bus: &Bus, register: CPUReg) -> (r: MicroOpResponse)
        ensures
            final(self)@ == (CpuView { regs: write_reg(old(self)@.regs, register, sign_extend_byte(bus@.data)), ..old(self)@ }),
            r == proceed(),
    {
        let data = bus.get_data();
        let low = data & 0xFF;
        let value = if low < 0x80 {
            low
        } else {
            low | 0xFFFF_FFFF_FFFF_FF00
        };
        proof {
            assert(data & 0xFF == data % 0x100) by (bit_vector);
            assert(low >= 0x80 && low < 0x100 ==> low | 0xFFFF_FFFF_FFFF_FF00 == low + 0xFFFF_FFFF_FFFF_FF00)
                by (bit_vector);
        }
        self.registers.set_register(register, value);
        MicroOpResponse::new()
    }

    fn mo_bus_read_half_word(&mut self, bus: &Bus, register: CPUReg) -> (r: MicroOpResponse)
        ensures
            final(self)@ == (CpuView { regs: write_reg(old(self)@.regs, register, sign_extend_half_word(bus@.data)), ..old(self)@ }),
            r == proceed(),
    {
        let data = bus.get_data();
        let low = data & 0xFFFF;
        let value = if low < 0x8000 {
            low
        } else {
            low | 0xFFFF_FFFF_FFFF_0000
        };
        proof {
            assert(data & 0xFFFF == data % 0x1_0000) by (bit_vector);
            assert(low >= 0x8000 && low < 0x1_0000 ==> low | 0xFFFF_FFFF_FFFF_0000 == low + 0xFFFF_FFFF_FFFF_0000)
                by (bit_vector);
        }
        self.registers.set_register(register, value);
        MicroOpResponse::new()
    }

    fn mo_bus_read_word(&mut self, bus: &Bus, register: CPUReg) -> (r: MicroOpResponse)
        ensures
            final(self)@ == (CpuView { regs: write_reg(old(self)@.regs, register, sign_extend_word(bus@.data)), ..old(self)@ }),
            r == proceed(),
    {
        let data = bus.get_data();
        let low = data & 0xFFFF_FFFF;
        let value = if low < 0x8000_0000 {
            low
        } else {
            low | 0xFFFF_FFFF_0000_0000
        };
        proof {
            assert(data & 0xFFFF_FFFF == data % 0x1_0000_0000) by (bit_vector);
            assert(low >= 0x8000_0000 && low < 0x1_0000_0000 ==> low | 0xFFFF_FFFF_0000_0000 == low
                + 0xFFFF_FFFF_0000_0000) by (bit_vector);
        }
        self.registers.set_register(register, value);
        MicroOpResponse::new()
    }

    fn mo_bus_read_double_word(&mut self, bus: &Bus, register: CPUReg) -> (r: MicroOpResponse)
        ensures
            final(self)@ == (CpuView { regs: write_reg(old(self)@.regs, register, bus@.data), ..old(self)@ }),
            r == proceed(),
    {
        let data = bus.get_data();
        self.registers.set_register(register, data);
        MicroOpResponse::new()
    }

    fn mo_bus_set_status(&mut self, bus: &mut Bus, status: BusStatus) -> (r: MicroOpResponse)
        ensures
            final(self)@ == old(self)@,
            final(bus)@ == old(bus)@.put_status_spec(status, BusOwner::CPU).0,
            r == proceed(),
    {
        bus.put_status(status, BusOwner::CPU);
        MicroOpResponse::new()
    }

    fn mo_bus_set_read(&mut self, bus: &mut Bus) -> (r: MicroOpResponse)
        ensures
            final(self)@ == old(self)@,
            final(bus)@ == old(bus)@.put_status_spec(BusStatus::Read, BusOwner::CPU).0,
            r == proceed(),
    {
        self.mo_bus_set_status(bus, BusStatus::Read)
    }

    fn mo_bus_set_write_byte(&mut self, bus: &mut Bus) -> (r: MicroOpResponse)
        ensures
            final(self)@ == old(self)@,
            final(bus)@ == old(bus)@.put_status_spec(BusStatus::WriteByte, BusOwner::CPU).0,
            r == proceed(),
    {
        self.mo_bus_set_status(bus, BusStatus::WriteByte)
    }

    fn mo_bus_set_write_half_word(&mut self, bus: &mut Bus) -> (r: MicroOpResponse)
        ensures
            final(self)@ == old(self)@,
            final(bus)@ == old(bus)@.put_status_spec(BusStatus::WriteHalfWord, BusOwner::CPU).0,
            r == proceed(),
    {
        self.mo_bus_set_status(bus, BusStatus::WriteHalfWord)
    }

    fn mo_bus_set_write_word(&mut self, bus: &mut Bus) -> (r: MicroOpResponse)
        ensures
            final(self)@ == old(self)@,
            final(bus)@ == old(bus)@.put_status_spec(BusStatus::WriteWord, BusOwner::CPU).0,
            r == proceed(),
    {
        self.mo_bus_set_status(bus, BusStatus::WriteWord)
    }

    fn mo_bus_set_write_double_word(&mut self, bus: &mut Bus) -> (r: MicroOpResponse)
        ensures
            final(self)@ == old(self)@,
            final(bus)@ == old(bus)@.put_status_spec(BusStatus::WriteDoubleWord, BusOwner::CPU).0,
            r == proceed(),
    {
        self.mo_bus_set_status(bus, BusStatus::WriteDoubleWord)
    }

    /// Decodes `IR` and replaces the queue with the instruction's micro-operations;
    /// a word that is no instruction stops the CPU and is kept as its fault.
    fn mo_decode(&mut self) -> (r: MicroOpResponse)
        ensures
            final(self)@ == decode_step(old(self)@),
            r == (MicroOpResponse { repeat: false, halt: decode_spec(instruction_word(old(self)@.regs)) is None }),
    {
        let word = self.registers.get_register(CPUReg::IR);
        let instruction_bits = word as u32;
        assert(word as u32 == word % 0x1_0000_0000) by (bit_vector);
        match decompose_instruction(instruction_bits) {
            Ok((_instruction, queue)) => {
                self.micro_op_queue = queue_of(queue);
                MicroOpResponse::new()
            },
            Err(e) => {
                self.micro_op_queue = VecDeque::new();
                self.halted = true;
                self.fault = Some(e);
                MicroOpResponse::new_halt()
            },
        }
    }

    fn mo_register_load_imm(&mut self, register: CPUReg, imm: u64) -> (r: MicroOpResponse)
        ensures
            final(self)@ == (CpuView { regs: write_reg(old(self)@.regs, register, imm), ..old(self)@ }),
            r == proceed(),
    {
        self.registers.set_register(register, imm);
        MicroOpResponse::new()
    }
}

/// A queue holding `ops` in order.
fn queue_of(ops: Vec<MicroOp>) -> (r: VecDeque<MicroOp>)
    ensures
        r@ == ops@,
{
    let mut q = VecDeque::new();
    let mut i: usize = 0;
    while i < ops.len()
        invariant
            i <= ops.len(),
            q@ == ops@.subrange(0, i as int),
        decreases ops.len() - i,
    {
        q.push_back(ops[i]);
        i = i + 1;
        assert(q@ =~= ops@.subrange(0, i as int));
    }
    assert(ops@.subrange(0, ops.len() as int) =~= ops@);
    q
}

/// ALU OPERATIONS
impl CPU {
    /// Writes `result` to `rd`, then sets zero from it and carry and subtract as given.
    fn write_alu_result(&mut self, rd: CPUReg, result: u64, carry: bool, subtract: bool)
        ensures
            final(self)@ == (CpuView {
                regs: {
                    let written = write_reg(old(self)@.regs, rd, result);
                    let f = CPUReg::F.spec_index() as int;
                    written.update(f, with_flags(written[f], result == 0, carry, subtract))
                },
                ..old(self)@
            }),
    {
        self.registers.set_register(rd, result);
        let f = self.registers.get_flags();
        self.registers.set_flags(flags_after(f, result == 0, carry, subtract));
    }

    /// `rd = rs1 + rs2`, saturating at the largest value with carry set.
    fn mo_alu_add(&mut self, rd: CPUReg, rs1: CPUReg, rs2: CPUReg) -> (r: MicroOpResponse)
        ensures
            final(self)@ == (CpuView { regs: alu_step(old(self)@.regs, MicroOp::ALUAdd(rd, rs1, rs2)), ..old(self)@ }),
            r == proceed(),
    {
        let value1 = self.registers.get_register(rs1);
        let value2 = self.registers.get_register(rs2);
        let (result, carry) = match value1.checked_add(value2) {
            Some(v) => (v, false),
            None => (u64::MAX, true),
        };
        self.write_alu_result(rd, result, carry, false);
        MicroOpResponse::new()
    }

    /// `rd = rs1 - rs2`, saturating at zero with carry set.
    fn mo_alu_sub(&mut self, rd: CPUReg, rs1: CPUReg, rs2: CPUReg) -> (r: MicroOpResponse)
        ensures
            final(self)@ == (CpuView { regs: alu_step(old(self)@.regs, MicroOp::ALUSub(rd, rs1, rs2)), ..old(self)@ }),
            r == proceed(),
    {
        let value1 = self.registers.get_register(rs1);
        let value2 = self.registers.get_register(rs2);
        let (result, carry) = match value1.checked_sub(value2) {
            Some(v) => (v, false),
            None => (0, true),
        };
        self.write_alu_result(rd, result, carry, true);
        MicroOpResponse::new()
    }

    fn mo_alu_and(&mut self, rd: CPUReg, rs1: CPUReg, rs2: CPUReg) -> (r: MicroOpResponse)
        ensures
            final(self)@ == (CpuView { regs: alu_step(old(self)@.regs, MicroOp::ALUAnd(rd, rs1, rs2)), ..old(self)@ }),
            r == proceed(),
    {
        let value1 = self.registers.get_register(rs1);
        let value2 = self.registers.get_register(rs2);
        self.write_alu_result(rd, value1 & value2, false, false);
        MicroOpResponse::new()
    }

    fn mo_alu_or(&mut self, rd: CPUReg, rs1: CPUReg, rs2: CPUReg) -> (r: MicroOpResponse)
        ensures
            final(self)@ == (CpuView { regs: alu_step(old(self)@.regs, MicroOp::ALUOr(rd, rs1, rs2)), ..old(self)@ }),
            r == proceed(),
    {
        let value1 = self.registers.get_register(rs1);
        let value2 = self.registers.get_register(rs2);
        self.write_alu_result(rd, value1 | value2, false, false);
        MicroOpResponse::new()
    }

    fn mo_alu_xor(&mut self, rd: CPUReg, rs1: CPUReg, rs2: CPUReg) -> (r: MicroOpResponse)
        ensures
            final(self)@ == (CpuView { regs: alu_step(old(self)@.regs, MicroOp::ALUXor(rd, rs1, rs2)), ..old(self)@ }),
            r == proceed(),
    {
        let value1 = self.registers.get_register(rs1);
        let value2 = self.registers.get_register(rs2);
        self.write_alu_result(rd, value1 ^ value2, false, false);
        MicroOpResponse::new()
    }

    /// `rd = rs1 << rs2`, by the low six bits of `rs2`.
    fn mo_alu_sll(&mut self, rd: CPUReg, rs1: CPUReg, rs2: CPUReg) -> (r: MicroOpResponse)
        ensures
            final(self)@ == (CpuView { regs: alu_step(old(self)@.regs, MicroOp::ALUSll(rd, rs1, rs2)), ..old(self)@ }),
            r == proceed(),
    {
        let value1 = self.registers.get_register(rs1);
        let value2 = self.registers.get_register(rs2);
        let shift = value2 & 63;
        assert(value2 & 63 == value2 % 64) by (bit_vector);
        self.write_alu_result(rd, value1 << shift, false, false);
        MicroOpResponse::new()
    }

    /// `rd = rs1 >> rs2`, logical, by the low six bits of `rs2`.
    fn mo_alu_srl(&mut self, rd: CPUReg, rs1: CPUReg, rs2: CPUReg) -> (r: MicroOpResponse)
        ensures
            final(self)@ == (CpuView { regs: alu_step(old(self)@.regs, MicroOp::ALUSrl(rd, rs1, rs2)), ..old(self)@ }),
            r == proceed(),
    {
        let value1 = self.registers.get_register(rs1);
        let value2 = self.registers.get_register(rs2);
        let shift = value2 & 63;
        assert(value2 & 63 == value2 % 64) by (bit_vector);
        self.write_alu_result(rd, value1 >> shift, false, false);
        MicroOpResponse::new()
    }

    /// `rd = rs1 >> rs2`, arithmetic, by the low six bits of `rs2`.
    fn mo_alu_sra(&mut self, rd: CPUReg, rs1: CPUReg, rs2: CPUReg) -> (r: MicroOpResponse)
        ensures
            final(self)@ == (CpuView { regs: alu_step(old(self)@.regs, MicroOp::ALUSra(rd, rs1, rs2)), ..old(self)@ }),
            r == proceed(),
    {
        let value1 = self.registers.get_register(rs1);
        let value2 = self.registers.get_register(rs2);
        let shift = value2 & 63;
        assert(value2 & 63 == value2 % 64) by (bit_vector);
        let result = if value1 < 0x8000_0000_0000_0000 {
            value1 >> shift
        } else {
            !((!value1) >> shift)
        };
        self.write_alu_result(rd, result, false, false);
        MicroOpResponse::new()
    }
}

impl CPURegistersAccessTrait for CPU {
    closed spec fn register_file(&self) -> Seq<u64> {
        self.registers@
    }

    fn get_registers(&self) -> (r: &CPURegisters) {
        &self.registers
    }

    fn set_registers(&mut self, registers: CPURegisters)
        ensures
            final(self)@ == (CpuView { regs: registers@, ..old(self)@ }),
    {
        self.registers.set_registers(registers);
    }

    fn get_register(&self, reg: CPUReg) -> (r: u64) {
        self.registers.get_register(reg)
    }

    fn set_register(&mut self, reg: CPUReg, value: u64)
        ensures
            final(self)@ == (CpuView { regs: write_reg(old(self)@.regs, reg, value), ..old(self)@ }),
    {
        self.registers.set_register(reg, value);
    }
}

impl CPUFlagsAccessTrait for CPU {
    closed spec fn flags_word(&self) -> u64 {
        self.registers@[CPUReg::F.spec_index() as int]
    }

    fn get_flags(&self) -> (r: u64) {
        self.registers.get_flags()
    }

    fn set_flags(&mut self, value: u64)
        ensures
            final(self)@ == (CpuView { regs: old(self)@.regs.update(CPUReg::F.spec_index() as int, value), ..old(self)@ }),
    {
        self.registers.set_flags(value);
    }
}

/// Prepares the registers of a CPU before it starts.
pub struct CPUBuilder {
    registers: CPURegisters,
}

impl CPUBuilder {
    /// A builder whose register file is all zero.
    pub fn new() -> (r: Self)
        ensures
            r.register_file() == Seq::new(REGISTER_COUNT as nat, |i: int| 0u64),
    {
        CPUBuilder { registers: CPURegisters::new() }
    }

    /// A running CPU with the prepared registers and an empty queue.
    pub fn build(self) -> (r: CPU)
        ensures
            r@ == (CpuView { regs: self.register_file(), queue: Seq::empty(), halted: false, fault: None }),
    {
        let mut cpu = CPU::new();
        cpu.set_registers(self.registers);
        cpu
    }
}

impl CPURegistersAccessTrait for CPUBuilder {
    closed spec fn register_file(&self) -> Seq<u64> {
        self.registers@
    }

    fn get_registers(&self) -> (r: &CPURegisters) {
        &self.registers
    }

    fn set_registers(&mut self, registers: CPURegisters) {
        self.registers.set_registers(registers);
    }

    fn get_register(&self, reg: CPUReg) -> (r: u64) {
        self.registers.get_register(reg)
    }

    fn set_register(&mut self, reg: CPUReg, value: u64) {
        self.registers.set_register(reg, value);
    }
}

impl CPUFlagsAccessTrait for CPUBuilder {
    closed spec fn flags_word(&self) -> u64 {
        self.registers@[CPUReg::F.spec_index() as int]
    }

    fn get_flags(&self) -> (r: u64) {
        self.registers.get_flags()
    }

    fn set_flags(&mut self, value: u64) {
        self.registers.set_flags(value);
    }
}

impl CPURegistersBuilderTrait for CPUBuilder {}

} // verus!
