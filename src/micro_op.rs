//! Micro-operations: the indivisible actions that the CPU performs, one per tick.
use std::collections::VecDeque;
use vstd::prelude::*;

use crate::registers::CPUReg;

verus! {

broadcast use vstd::std_specs::vecdeque::group_vec_dequeue_axioms;

#[derive(Debug, Clone, Copy, PartialEq, Eq, Structural)]
pub enum MicroOp {
    Stall,
    Halt,
    /// Decodes the instruction in the instruction register and decomposes it to micro operations
    Decode,
    // Bus operations
    BusRelease,
    BusTake,
    BusReadByte(CPUReg),
    BusReadHalfWord(CPUReg),
    BusReadWord(CPUReg),
    BusReadDoubleWord(CPUReg),
    BusWriteAddress(CPUReg),
    BusWriteData(CPUReg),
    BusSetRead,
    BusSetWriteByte,
    BusSetWriteHalfWord,
    BusSetWriteWord,
    BusSetWriteDoubleWord,
    // ALU operations
    /// rd, rs1, rs2
    ALUAdd(CPUReg, CPUReg, CPUReg),
    ALUSub(CPUReg, CPUReg, CPUReg),
    ALUAnd(CPUReg, CPUReg, CPUReg),
    ALUOr(CPUReg, CPUReg, CPUReg),
    ALUXor(CPUReg, CPUReg, CPUReg),
    ALUSll(CPUReg, CPUReg, CPUReg),
    ALUSrl(CPUReg, CPUReg, CPUReg),
    ALUSra(CPUReg, CPUReg, CPUReg),
    // Register operations
    RegisterLoadImm(CPUReg, u64),
}

/// The fetch sequence that starts every instruction: take the bus, read the
/// word at `PC` into `IR` (which also advances `PC`), free the bus, decode.
pub open spec fn fetch_sequence() -> Seq<MicroOp> {
    seq![
        MicroOp::BusTake,
        MicroOp::BusWriteAddress(CPUReg::PC),
        MicroOp::BusSetRead,
        MicroOp::BusReadWord(CPUReg::IR),
        MicroOp::BusRelease,
        MicroOp::Decode,
    ]
}

impl MicroOp {
    /// The fetch sequence, as a queue.
    pub fn default_queue() -> (r: VecDeque<Self>)
        ensures
            r@ == fetch_sequence(),
    {
        let mut q = VecDeque::new();
        q.push_back(Self::BusTake);
        q.push_back(Self::BusWriteAddress(CPUReg::PC));
        q.push_back(Self::BusSetRead);
        q.push_back(Self::BusReadWord(CPUReg::IR));
        q.push_back(Self::BusRelease);
        q.push_back(Self::Decode);
        assert(q@ =~= fetch_sequence());
        q
    }
}

/// What executing one micro-operation asks of the scheduler.
#[derive(Debug, Clone, Copy, PartialEq, Eq, Structural)]
pub struct MicroOpResponse {
    /// Run the same micro-operation again on the next tick.
    pub repeat: bool,
    /// Stop: the CPU has halted.
    pub halt: bool,
}

impl MicroOpResponse {
    /// Go on with the next micro-operation.
    pub fn new() -> (r: Self)
        ensures
            !r.repeat && !r.halt,
    {
        Self { repeat: false, halt: false }
    }

    pub fn new_repeat() -> (r: Self)
        ensures
            r.repeat && !r.halt,
    {
        Self { repeat: true, halt: false }
    }

    pub fn new_halt() -> (r: Self)
        ensures
            !r.repeat && r.halt,
    {
        Self { repeat: false, halt: true }
    }
}

} // verus!
