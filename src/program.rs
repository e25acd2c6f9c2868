//! An assembled program: the instruction words, four little-endian bytes each,
//! followed by the raw data bytes.
use vstd::prelude::*;

use crate::instruction::{encode_spec, word_bytes, Instruction};

verus! {

/// The bytes of the encodings of `ins`, in order.
pub open spec fn code_bytes(ins: Seq<Instruction>) -> Seq<u8>
    decreases ins.len(),
{
    if ins.len() == 0 {
        Seq::empty()
    } else {
        code_bytes(ins.drop_last()) + word_bytes(encode_spec(ins.last()))
    }
}

/// The program image of instructions `ins` followed by `data`.
pub open spec fn program_image(ins: Seq<Instruction>, data: Seq<u8>) -> Seq<u8> {
    code_bytes(ins) + data
}

/// Whether every instruction has 5-bit register encodings.
pub open spec fn all_encodable(ins: Seq<Instruction>) -> bool {
    forall|k: int| 0 <= k < ins.len() ==> (#[trigger] ins[k]).is_encodable()
}

/// Each instruction takes four bytes.
pub proof fn lemma_code_bytes_len(ins: Seq<Instruction>)
    ensures
        code_bytes(ins).len() == 4 * ins.len(),
    decreases ins.len(),
{
    if ins.len() > 0 {
        lemma_code_bytes_len(ins.drop_last());
    }
}

pub struct Program {
    pub binary: Vec<u8>,
    pub data_start: usize,
}

impl Program {
    pub fn new(binary: Vec<u8>, data_start: usize) -> (r: Self)
        ensures
            r.binary@ == binary@,
            r.data_start == data_start,
    {
        Self { binary, data_start }
    }

    pub fn data_start(&self) -> (r: usize)
        ensures
            r == self.data_start,
    {
        self.data_start
    }

    /// Encodes `instructions` and appends `additional_data`.
    pub fn build(instructions: &Vec<Instruction>, additional_data: &Vec<u8>) -> (r: Self)
        requires
            all_encodable(instructions@),
            4 * instructions.len() + additional_data.len() <= usize::MAX,
        ensures
            r.binary@ == program_image(instructions@, additional_data@),
            r.data_start == 4 * instructions.len(),
    {
        let mut binary: Vec<u8> = Vec::new();
        let mut i: usize = 0;
        while i < instructions.len()
            invariant
                i <= instructions.len(),
                all_encodable(instructions@),
                binary@ == code_bytes(instructions@.take(i as int)),
            decreases instructions.len() - i,
        {
            let bytes = instructions[i].to_byte_vector();
            binary.push(bytes[0]);
            binary.push(bytes[1]);
            binary.push(bytes[2]);
            binary.push(bytes[3]);
            proof {
                let next = instructions@.take(i + 1);
                assert(next.drop_last() =~= instructions@.take(i as int));
                assert(binary@ =~= code_bytes(next));
            }
            i = i + 1;
        }
        assert(instructions@.take(instructions.len() as int) =~= instructions@);
        proof {
            lemma_code_bytes_len(instructions@);
        }
        let data_start = binary.len();
        let mut j: usize = 0;
        while j < additional_data.len()
            invariant
                j <= additional_data.len(),
                binary@ == code_bytes(instructions@) + additional_data@.take(j as int),
            decreases additional_data.len() - j,
        {
            binary.push(additional_data[j]);
            j = j + 1;
            assert(binary@ =~= code_bytes(instructions@) + additional_data@.take(j as int));
        }
        assert(additional_data@.take(additional_data.len() as int) =~= additional_data@);
        Self::new(binary, data_start)
    }
}

} // verus!
