//! A builder for program images: instructions and labelled data are appended
//! in order; a byte load may name a data label, and compiling appends a final
//! `EBREAK` and fills in each such load with the address of its label.
use vstd::prelude::*;

use crate::instruction::Instruction;
use crate::program::{all_encodable, program_image, Program};
use crate::registers::CPUReg;

verus! {

/// A byte load, at an instruction index, that takes its address from a data label.
pub struct LabelReference {
    pub instruction_index: usize,
    pub label: String,
}

impl LabelReference {
    pub fn new(label: String, instruction_index: usize) -> (r: Self)
        ensures
            r.instruction_index == instruction_index,
            r.label@ == label@,
    {
        Self { instruction_index, label }
    }

    /// The byte load `instruction` with its immediate replaced by `address`.
    pub fn insert_into_instruction(instruction: Instruction, address: u64) -> (r: Instruction)
        requires
            instruction is Lb,
        ensures
            r == with_address(instruction, address),
    {
        match instruction {
            Instruction::Lb(rd, rs1, _) => Instruction::Lb(rd, rs1, address),
            _ => instruction,
        }
    }
}

/// A byte load with its immediate replaced by `address`; any other instruction as it is.
pub open spec fn with_address(i: Instruction, address: u64) -> Instruction {
    match i {
        Instruction::Lb(rd, rs1, _) => Instruction::Lb(rd, rs1, address),
        _ => i,
    }
}

/// The data index of the latest label named `name`, if any.
pub open spec fn label_lookup(labels: Seq<(String, usize)>, name: Seq<char>) -> Option<usize>
    decreases labels.len(),
{
    if labels.len() == 0 {
        None
    } else if labels.last().0@ == name {
        Some(labels.last().1)
    } else {
        label_lookup(labels.drop_last(), name)
    }
}

/// `ins` with each reference in `refs`, in order, given the address of its
/// label: `base` plus the label's data index.
pub open spec fn resolve(
    ins: Seq<Instruction>,
    refs: Seq<LabelReference>,
    labels: Seq<(String, usize)>,
    base: int,
) -> Seq<Instruction>
    decreases refs.len(),
{
    if refs.len() == 0 {
        ins
    } else {
        let r = refs[0];
        let next = match label_lookup(labels, r.label@) {
            Some(d) => ins.update(
                r.instruction_index as int,
                with_address(ins[r.instruction_index as int], (base + d) as u64),
            ),
            None => ins,
        };
        resolve(next, refs.drop_first(), labels, base)
    }
}

/// The invariant of a program under construction: every instruction is
/// encodable, every reference points at a byte load, every label at the data.
pub open spec fn builder_wf(
    ins: Seq<Instruction>,
    data: Seq<u8>,
    labels: Seq<(String, usize)>,
    refs: Seq<LabelReference>,
) -> bool {
    &&& all_encodable(ins)
    &&& forall|k: int|
        0 <= k < refs.len() ==> (#[trigger] refs[k]).instruction_index < ins.len()
            && ins[refs[k].instruction_index as int] is Lb
    &&& forall|k: int| 0 <= k < labels.len() ==> (#[trigger] labels[k]).1 <= data.len()
}

/// Whether a well-formed program can be compiled: every referenced label is
/// defined, and the image, with its final `EBREAK`, fits in memory.
pub open spec fn builder_ready(
    ins: Seq<Instruction>,
    data: Seq<u8>,
    labels: Seq<(String, usize)>,
    refs: Seq<LabelReference>,
) -> bool {
    &&& builder_wf(ins, data, labels, refs)
    &&& forall|k: int| 0 <= k < refs.len() ==> label_lookup(labels, (#[trigger] refs[k]).label@) is Some
    &&& 4 * (ins.len() + 1) + data.len() <= usize::MAX
}

/// The core of a program builder: its parts, and appending to them.
pub trait ProgramBuilderLayer: Sized {
    spec fn instructions_view(&self) -> Seq<Instruction>;

    spec fn data_view(&self) -> Seq<u8>;

    spec fn labels_view(&self) -> Seq<(String, usize)>;

    spec fn references_view(&self) -> Seq<LabelReference>;

    /// Appends `EBREAK`, resolves the label references and builds the image.
    fn compile(self) -> (r: Program)
        requires
            builder_ready(self.instructions_view(), self.data_view(), self.labels_view(), self.references_view()),
        ensures
            ({
                let ins = self.instructions_view().push(Instruction::EBreak);
                let base = 4 * ins.len();
                &&& r.data_start == base
                &&& r.binary@ == program_image(
                    resolve(ins, self.references_view(), self.labels_view(), base as int),
                    self.data_view(),
                )
            }),
    ;

    fn get_instructions(&self) -> (r: &Vec<Instruction>)
        ensures
            r@ == self.instructions_view(),
    ;

    fn get_data(&self) -> (r: &Vec<u8>)
        ensures
            r@ == self.data_view(),
    ;

    fn get_data_labels(&self) -> (r: &Vec<(String, usize)>)
        ensures
            r@ == self.labels_view(),
    ;

    fn get_label_references(&self) -> (r: &Vec<LabelReference>)
        ensures
            r@ == self.references_view(),
    ;

    fn add_instruction(&mut self, instruction: Instruction)
        requires
            builder_wf(old(self).instructions_view(), old(self).data_view(), old(self).labels_view(), old(self).references_view()),
            instruction.is_encodable(),
        ensures
            final(self).instructions_view() == old(self).instructions_view().push(instruction),
            final(self).data_view() == old(self).data_view(),
            final(self).labels_view() == old(self).labels_view(),
            final(self).references_view() == old(self).references_view(),
            builder_wf(final(self).instructions_view(), final(self).data_view(), final(self).labels_view(), final(self).references_view()),
    ;

    /// Appends `data` and names its first byte `label`.
    fn data(self, label: &str, data: Vec<u8>) -> (r: Self)
        requires
            builder_wf(self.instructions_view(), self.data_view(), self.labels_view(), self.references_view()),
        ensures
            r.instructions_view() == self.instructions_view(),
            r.data_view() == self.data_view() + data@,
            r.labels_view().len() == self.labels_view().len() + 1,
            r.labels_view().drop_last() == self.labels_view(),
            r.labels_view().last().0@ == label@,
            r.labels_view().last().1 == self.data_view().len(),
            r.references_view() == self.references_view(),
            builder_wf(r.instructions_view(), r.data_view(), r.labels_view(), r.references_view()),
    ;

    fn add_data_label(&mut self, name: String, index: usize)
        requires
            builder_wf(old(self).instructions_view(), old(self).data_view(), old(self).labels_view(), old(self).references_view()),
            index <= old(self).data_view().len(),
        ensures
            final(self).instructions_view() == old(self).instructions_view(),
            final(self).data_view() == old(self).data_view(),
            final(self).labels_view() == old(self).labels_view().push((name, index)),
            final(self).references_view() == old(self).references_view(),
            builder_wf(final(self).instructions_view(), final(self).data_view(), final(self).labels_view(), final(self).references_view()),
    ;

    fn add_label_reference(&mut self, label: String, instruction_index: usize)
        requires
            builder_wf(old(self).instructions_view(), old(self).data_view(), old(self).labels_view(), old(self).references_view()),
            instruction_index < old(self).instructions_view().len(),
            old(self).instructions_view()[instruction_index as int] is Lb,
        ensures
            final(self).instructions_view() == old(self).instructions_view(),
            final(self).data_view() == old(self).data_view(),
            final(self).labels_view() == old(self).labels_view(),
            final(self).references_view().len() == old(self).references_view().len() + 1,
            final(self).references_view().drop_last() == old(self).references_view(),
            final(self).references_view().last().instruction_index == instruction_index,
            final(self).references_view().last().label@ == label@,
            builder_wf(final(self).instructions_view(), final(self).data_view(), final(self).labels_view(), final(self).references_view()),
    ;
}

/// Builder steps that append one instruction each.
pub trait InstructionLayer: ProgramBuilderLayer {
    fn add(self, rd: CPUReg, rs1: CPUReg, rs2: CPUReg) -> (r: Self)
        requires
            builder_wf(self.instructions_view(), self.data_view(), self.labels_view(), self.references_view()),
            rd.is_architectural(),
            rs1.is_architectural(),
            rs2.is_architectural(),
        ensures
            r.instructions_view() == self.instructions_view().push(Instruction::Add(rd, rs1, rs2)),
            r.data_view() == self.data_view(),
            r.labels_view() == self.labels_view(),
            r.references_view() == self.references_view(),
            builder_wf(r.instructions_view(), r.data_view(), r.labels_view(), r.references_view()),
    {
        let mut b = self;
        b.add_instruction(Instruction::Add(rd, rs1, rs2));
        b
    }

    fn and(self, rd: CPUReg, rs1: CPUReg, rs2: CPUReg) -> (r: Self)
        requires
            builder_wf(self.instructions_view(), self.data_view(), self.labels_view(), self.references_view()),
            rd.is_architectural(),
            rs1.is_architectural(),
            rs2.is_architectural(),
        ensures
            r.instructions_view() == self.instructions_view().push(Instruction::And(rd, rs1, rs2)),
            r.data_view() == self.data_view(),
            r.labels_view() == self.labels_view(),
            r.references_view() == self.references_view(),
            builder_wf(r.instructions_view(), r.data_view(), r.labels_view(), r.references_view()),
    {
        let mut b = self;
        b.add_instruction(Instruction::And(rd, rs1, rs2));
        b
    }

    fn or(self, rd: CPUReg, rs1: CPUReg, rs2: CPUReg) -> (r: Self)
        requires
            builder_wf(self.instructions_view(), self.data_view(), self.labels_view(), self.references_view()),
            rd.is_architectural(),
            rs1.is_architectural(),
            rs2.is_architectural(),
        ensures
            r.instructions_view() == self.instructions_view().push(Instruction::Or(rd, rs1, rs2)),
            r.data_view() == self.data_view(),
            r.labels_view() == self.labels_view(),
            r.references_view() == self.references_view(),
            builder_wf(r.instructions_view(), r.data_view(), r.labels_view(), r.references_view()),
    {
        let mut b = self;
        b.add_instruction(Instruction::Or(rd, rs1, rs2));
        b
    }

    fn sub(self, rd: CPUReg, rs1: CPUReg, rs2: CPUReg) -> (r: Self)
        requires
            builder_wf(self.instructions_view(), self.data_view(), self.labels_view(), self.references_view()),
            rd.is_architectural(),
            rs1.is_architectural(),
            rs2.is_architectural(),
        ensures
            r.instructions_view() == self.instructions_view().push(Instruction::Sub(rd, rs1, rs2)),
            r.data_view() == self.data_view(),
            r.labels_view() == self.labels_view(),
            r.references_view() == self.references_view(),
            builder_wf(r.instructions_view(), r.data_view(), r.labels_view(), r.references_view()),
    {
        let mut b = self;
        b.add_instruction(Instruction::Sub(rd, rs1, rs2));
        b
    }

    fn xor(self, rd: CPUReg, rs1: CPUReg, rs2: CPUReg) -> (r: Self)
        requires
            builder_wf(self.instructions_view(), self.data_view(), self.labels_view(), self.references_view()),
            rd.is_architectural(),
            rs1.is_architectural(),
            rs2.is_architectural(),
        ensures
            r.instructions_view() == self.instructions_view().push(Instruction::Xor(rd, rs1, rs2)),
            r.data_view() == self.data_view(),
            r.labels_view() == self.labels_view(),
            r.references_view() == self.references_view(),
            builder_wf(r.instructions_view(), r.data_view(), r.labels_view(), r.references_view()),
    {
        let mut b = self;
        b.add_instruction(Instruction::Xor(rd, rs1, rs2));
        b
    }

    fn sll(self, rd: CPUReg, rs1: CPUReg, rs2: CPUReg) -> (r: Self)
        requires
            builder_wf(self.instructions_view(), self.data_view(), self.labels_view(), self.references_view()),
            rd.is_architectural(),
            rs1.is_architectural(),
            rs2.is_architectural(),
        ensures
            r.instructions_view() == self.instructions_view().push(Instruction::Sll(rd, rs1, rs2)),
            r.data_view() == self.data_view(),
            r.labels_view() == self.labels_view(),
            r.references_view() == self.references_view(),
            builder_wf(r.instructions_view(), r.data_view(), r.labels_view(), r.references_view()),
    {
        let mut b = self;
        b.add_instruction(Instruction::Sll(rd, rs1, rs2));
        b
    }

    fn srl(self, rd: CPUReg, rs1: CPUReg, rs2: CPUReg) -> (r: Self)
        requires
            builder_wf(self.instructions_view(), self.data_view(), self.labels_view(), self.references_view()),
            rd.is_architectural(),
            rs1.is_architectural(),
            rs2.is_architectural(),
        ensures
            r.instructions_view() == self.instructions_view().push(Instruction::Srl(rd, rs1, rs2)),
            r.data_view() == self.data_view(),
            r.labels_view() == self.labels_view(),
            r.references_view() == self.references_view(),
            builder_wf(r.instructions_view(), r.data_view(), r.labels_view(), r.references_view()),
    {
        let mut b = self;
        b.add_instruction(Instruction::Srl(rd, rs1, rs2));
        b
    }

    fn sra(self, rd: CPUReg, rs1: CPUReg, rs2: CPUReg) -> (r: Self)
        requires
            builder_wf(self.instructions_view(), self.data_view(), self.labels_view(), self.references_view()),
            rd.is_architectural(),
            rs1.is_architectural(),
            rs2.is_architectural(),
        ensures
            r.instructions_view() == self.instructions_view().push(Instruction::Sra(rd, rs1, rs2)),
            r.data_view() == self.data_view(),
            r.labels_view() == self.labels_view(),
            r.references_view() == self.references_view(),
            builder_wf(r.instructions_view(), r.data_view(), r.labels_view(), r.references_view()),
    {
        let mut b = self;
        b.add_instruction(Instruction::Sra(rd, rs1, rs2));
        b
    }

    fn lb(self, rd: CPUReg, rs1: CPUReg, imm: u64) -> (r: Self)
        requires
            builder_wf(self.instructions_view(), self.data_view(), self.labels_view(), self.references_view()),
            rd.is_architectural(),
            rs1.is_architectural(),
        ensures
            r.instructions_view() == self.instructions_view().push(Instruction::Lb(rd, rs1, imm)),
            r.data_view() == self.data_view(),
            r.labels_view() == self.labels_view(),
            r.references_view() == self.references_view(),
            builder_wf(r.instructions_view(), r.data_view(), r.labels_view(), r.references_view()),
    {
        let mut b = self;
        b.add_instruction(Instruction::Lb(rd, rs1, imm));
        b
    }
}

/// Builder steps that refer to data labels.
pub trait InstructionLabelLayer: InstructionLayer {
    /// Appends a byte load `rd = M[rs1 + address of data_label]`; the address
    /// is filled in when the program is compiled.
    fn lb_label(self, rd: CPUReg, rs1: CPUReg, data_label: &str) -> (r: Self)
        requires
            builder_wf(self.instructions_view(), self.data_view(), self.labels_view(), self.references_view()),
            rd.is_architectural(),
            rs1.is_architectural(),
        ensures
            r.instructions_view() == self.instructions_view().push(Instruction::Lb(rd, rs1, 0)),
            r.data_view() == self.data_view(),
            r.labels_view() == self.labels_view(),
            r.references_view().len() == self.references_view().len() + 1,
            r.references_view().drop_last() == self.references_view(),
            r.references_view().last().instruction_index == self.instructions_view().len(),
            r.references_view().last().label@ == data_label@,
            builder_wf(r.instructions_view(), r.data_view(), r.labels_view(), r.references_view()),
    {
        let instruction_index = self.get_instructions().len();
        let mut b = self.lb(rd, rs1, 0);
        b.add_label_reference(data_label.to_owned(), instruction_index);
        b
    }
}

pub struct Compiler {
    instructions: Vec<Instruction>,
    data: Vec<u8>,
    data_labels: Vec<(String, usize)>,
    label_references: Vec<LabelReference>,
}

impl Compiler {
    /// An empty program.
    pub fn new() -> (r: Self)
        ensures
            r.instructions_view() == Seq::<Instruction>::empty(),
            r.data_view() == Seq::<u8>::empty(),
            r.labels_view() == Seq::<(String, usize)>::empty(),
            r.references_view() == Seq::<LabelReference>::empty(),
            builder_wf(r.instructions_view(), r.data_view(), r.labels_view(), r.references_view()),
    {
        Compiler {
            instructions: Vec::new(),
            data: Vec::new(),
            data_labels: Vec::new(),
            label_references: Vec::new(),
        }
    }

    /// The data index of the latest label named `name`.
    fn find_label(&self, name: &String) -> (r: Option<usize>)
        ensures
            r == label_lookup(self.data_labels@, name@),
    {
        let mut i: usize = self.data_labels.len();
        assert(self.data_labels@.take(i as int) =~= self.data_labels@);
        while i > 0
            invariant
                i <= self.data_labels.len(),
                label_lookup(self.data_labels@, name@) == label_lookup(self.data_labels@.take(i as int), name@),
            decreases i,
        {
            let ghost prefix = self.data_labels@.take(i as int);
            assert(prefix.drop_last() =~= self.data_labels@.take(i - 1));
            if self.data_labels[i - 1].0 == *name {
                return Some(self.data_labels[i - 1].1);
            }
            i = i - 1;
        }
        assert(self.data_labels@.take(0) =~= Seq::<(String, usize)>::empty());
        None
    }

    /// Fills in each label reference with its label's address: the start of the
    /// data, right after the last instruction, plus the label's data index.
    fn resolve_label_references(&mut self)
        requires
            builder_wf(old(self).instructions_view(), old(self).data_view(), old(self).labels_view(), old(self).references_view()),
            forall|k: int|
                0 <= k < old(self).references_view().len() ==> label_lookup(
                    old(self).labels_view(),
                    (#[trigger] old(self).references_view()[k]).label@,
                ) is Some,
            4 * old(self).instructions_view().len() + old(self).data_view().len() <= usize::MAX,
        ensures
            final(self).instructions_view().len() == old(self).instructions_view().len(),
            final(self).instructions_view() == resolve(
                old(self).instructions_view(),
                old(self).references_view(),
                old(self).labels_view(),
                4 * old(self).instructions_view().len() as int,
            ),
            final(self).data_view() == old(self).data_view(),
            final(self).labels_view() == old(self).labels_view(),
            final(self).references_view() == old(self).references_view(),
            all_encodable(final(self).instructions_view()),
    {
        let data_start_address = self.instructions.len() as u64 * 4;
        let ghost base: int = 4 * old(self).instructions_view().len() as int;
        let ghost refs = self.label_references@;
        let mut i: usize = 0;
        assert(refs.skip(0) =~= refs);
        while i < self.label_references.len()
            invariant
                i <= refs.len(),
                refs == self.label_references@,
                data_start_address == base,
                self.data@ == old(self).data@,
                self.data_labels@ == old(self).data_labels@,
                self.instructions@.len() == old(self).instructions@.len(),
                all_encodable(self.instructions@),
                forall|k: int| 0 <= k < refs.len() ==> (#[trigger] refs[k]).instruction_index
                    < self.instructions@.len() && self.instructions@[refs[k].instruction_index as int] is Lb,
                forall|k: int| 0 <= k < refs.len() ==> label_lookup(self.data_labels@, (#[trigger] refs[k]).label@) is Some,
                forall|k: int| 0 <= k < self.data_labels@.len() ==> (#[trigger] self.data_labels@[k]).1 <= self.data@.len(),
                base + self.data@.len() <= usize::MAX,
                resolve(self.instructions@, refs.skip(i as int), self.data_labels@, base)
                    == resolve(old(self).instructions@, refs, old(self).data_labels@, base),
            decreases refs.len() - i,
        {
            let index = self.label_references[i].instruction_index;
            let data_index = match self.find_label(&self.label_references[i].label) {
                Some(d) => d,
                None => 0,
            };
            proof {
                lemma_label_lookup_in(self.data_labels@, refs[i as int].label@);
            }
            let address = data_start_address + data_index as u64;
            let new_instruction = LabelReference::insert_into_instruction(self.instructions[index], address);
            let ghost before = self.instructions@;
            self.instructions.set(index, new_instruction);
            proof {
                assert(refs.skip(i as int).drop_first() =~= refs.skip(i + 1));
                assert(self.instructions@ == before.update(
                    index as int,
                    with_address(before[index as int], (base + data_index) as u64),
                ));
                assert forall|k: int| 0 <= k < refs.len() implies (#[trigger] refs[k]).instruction_index
                    < self.instructions@.len() && self.instructions@[refs[k].instruction_index as int] is Lb by {
                    if refs[k].instruction_index != index {
                        assert(self.instructions@[refs[k].instruction_index as int] == before[refs[k].instruction_index as int]);
                    }
                }
                assert forall|k: int| 0 <= k < self.instructions@.len() implies (#[trigger] self.instructions@[k]).is_encodable() by {
                    if k != index {
                        assert(self.instructions@[k] == before[k]);
                    }
                }
            }
            i = i + 1;
        }
        proof {
            assert(refs.skip(refs.len() as int) =~= Seq::<LabelReference>::empty());
        }
    }
}

/// A label that is found lies within the data.
proof fn lemma_label_lookup_in(labels: Seq<(String, usize)>, name: Seq<char>)
    ensures
        label_lookup(labels, name) matches Some(d) ==> exists|k: int| 0 <= k < labels.len() && (#[trigger] labels[k]).1 == d,
    decreases labels.len(),
{
    if labels.len() > 0 && labels.last().0@ != name {
        lemma_label_lookup_in(labels.drop_last(), name);
        if let Some(d) = label_lookup(labels.drop_last(), name) {
            let k = choose|k: int| 0 <= k < labels.drop_last().len() && (#[trigger] labels.drop_last()[k]).1 == d;
            assert(labels[k] == labels.drop_last()[k]);
        }
    }
}

impl ProgramBuilderLayer for Compiler {
    closed spec fn instructions_view(&self) -> Seq<Instruction> {
        self.instructions@
    }

    closed spec fn data_view(&self) -> Seq<u8> {
        self.data@
    }

    closed spec fn labels_view(&self) -> Seq<(String, usize)> {
        self.data_labels@
    }

    closed spec fn references_view(&self) -> Seq<LabelReference> {
        self.label_references@
    }

    fn compile(self) -> (r: Program) {
        let mut c = self;
        c.add_instruction(Instruction::EBreak);
        c.resolve_label_references();
        Program::build(&c.instructions, &c.data)
    }

    fn get_instructions(&self) -> (r: &Vec<Instruction>) {
        &self.instructions
    }

    fn get_data(&self) -> (r: &Vec<u8>) {
        &self.data
    }

    fn get_data_labels(&self) -> (r: &Vec<(String, usize)>) {
        &self.data_labels
    }

    fn get_label_references(&self) -> (r: &Vec<LabelReference>) {
        &self.label_references
    }

    fn add_instruction(&mut self, instruction: Instruction) {
        self.instructions.push(instruction);
        proof {
            assert(self.instructions@.drop_last() =~= old(self).instructions@);
        }
    }

    fn data(self, label: &str, data: Vec<u8>) -> (r: Self) {
        let mut c = self;
        let start_index = c.data.len();
        let mut i: usize = 0;
        while i < data.len()
            invariant
                i <= data.len(),
                c.data@ == self.data@ + data@.take(i as int),
                c.instructions@ == self.instructions@,
                c.data_labels@ == self.data_labels@,
                c.label_references@ == self.label_references@,
                start_index == self.data@.len(),
            decreases data.len() - i,
        {
            c.data.push(data[i]);
            i = i + 1;
            assert(c.data@ =~= self.data@ + data@.take(i as int));
        }
        assert(data@.take(data.len() as int) =~= data@);
        c.add_data_label(label.to_owned(), start_index);
        c
    }

    fn add_data_label(&mut self, name: String, index: usize) {
        self.data_labels.push((name, index));
    }

    fn add_label_reference(&mut self, label: String, instruction_index: usize) {
        let label_reference = LabelReference::new(label, instruction_index);
        self.label_references.push(label_reference);
        proof {
            assert(self.label_references@.drop_last() =~= old(self).label_references@);
        }
    }
}

impl InstructionLayer for Compiler {}

impl InstructionLabelLayer for Compiler {}

} // verus!
