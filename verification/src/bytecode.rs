//! The append-only, ordered instruction log that represents one traversal
//! program, together with the laws that program order is preserved.

use vstd::prelude::*;
use crate::value::GValue;
use crate::value::GValueModel;
use crate::value::gvalue_views;

verus! {

/// One `(operator, arguments)` pair of a traversal program. The operator token
/// is part of the wire contract and is stored verbatim; the arguments keep
/// call-site order.
#[derive(Debug, PartialEq)]
pub struct Instruction {
    pub operator: String,
    pub args: Vec<GValue>,
}

/// Ghost model of an [`Instruction`].
pub ghost struct InstructionModel {
    pub operator: Seq<char>,
    pub args: Seq<GValueModel>,
}

impl View for Instruction {
    type V = InstructionModel;

    open spec fn view(&self) -> InstructionModel {
        InstructionModel { operator: self.operator@, args: gvalue_views(self.args@) }
    }
}

impl Clone for Instruction {
    fn clone(&self) -> (r: Self)
        ensures
            r@ == self@,
    {
        let args = clone_gvalues(&self.args);
        let r = Instruction { operator: self.operator.clone(), args };
        proof {
            assert(gvalue_views(r.args@) =~= gvalue_views(self.args@));
        }
        r
    }
}

/// Clones a vector of values; every element of the copy equals the original.
fn clone_gvalues(v: &Vec<GValue>) -> (r: Vec<GValue>)
    ensures
        r@ == v@,
{
    let mut r: Vec<GValue> = Vec::new();
    let n = v.len();
    let mut i: usize = 0;
    while i < n
        invariant
            n == v.len(),
            i <= n,
            r@ =~= v@.subrange(0, i as int),
        decreases n - i,
    {
        r.push(v[i].clone());
        proof {
            assert(r@ =~= v@.subrange(0, i + 1));
        }
        i = i + 1;
    }
    proof {
        assert(v@.subrange(0, n as int) =~= v@);
    }
    r
}

/// The views of a sequence of instructions.
pub open spec fn instruction_views(v: Seq<Instruction>) -> Seq<InstructionModel> {
    v.map_values(|i: Instruction| i@)
}

/// Ghost model of a [`Bytecode`]: the two ordered instruction sequences.
pub ghost struct BytecodeModel {
    pub sources: Seq<InstructionModel>,
    pub steps: Seq<InstructionModel>,
}

/// An append-only traversal program: an ordered sequence of source
/// instructions (traversal-level configuration) and an ordered sequence of
/// step instructions (the traversal proper). Instructions are only ever
/// appended; no operation mutates or removes one once added.
#[derive(Debug, PartialEq)]
pub struct Bytecode {
    source_instructions: Vec<Instruction>,
    step_instructions: Vec<Instruction>,
}

impl View for Bytecode {
    type V = BytecodeModel;

    closed spec fn view(&self) -> BytecodeModel {
        BytecodeModel {
            sources: instruction_views(self.source_instructions@),
            steps: instruction_views(self.step_instructions@),
        }
    }
}

impl Bytecode {
    /// Creates an empty program.
    pub fn new() -> (r: Bytecode)
        ensures
            r@.sources == Seq::<InstructionModel>::empty(),
            r@.steps == Seq::<InstructionModel>::empty(),
    {
        let r = Bytecode { source_instructions: Vec::new(), step_instructions: Vec::new() };
        proof {
            assert(r@.sources =~= Seq::<InstructionModel>::empty());
            assert(r@.steps =~= Seq::<InstructionModel>::empty());
        }
        r
    }

    /// Appends one instruction to the step sequence. Infallible; the operator
    /// token is stored verbatim, with no validation of its name or arity, and
    /// the arguments keep their order. Every earlier instruction is unchanged.
    pub fn add_step(&mut self, operator: String, args: Vec<GValue>)
        ensures
            final(self)@.steps == old(self)@.steps.push(
                InstructionModel { operator: operator@, args: gvalue_views(args@) },
            ),
            final(self)@.sources == old(self)@.sources,
    {
        let ghost m = InstructionModel { operator: operator@, args: gvalue_views(args@) };
        self.step_instructions.push(Instruction { operator, args });
        proof {
            assert(self@.steps =~= old(self)@.steps.push(m));
        }
    }

    /// Appends one instruction to the source sequence. Infallible, append-only,
    /// exactly as [`Bytecode::add_step`] is for the step sequence.
    pub fn add_source(&mut self, operator: String, args: Vec<GValue>)
        ensures
            final(self)@.sources == old(self)@.sources.push(
                InstructionModel { operator: operator@, args: gvalue_views(args@) },
            ),
            final(self)@.steps == old(self)@.steps,
    {
        let ghost m = InstructionModel { operator: operator@, args: gvalue_views(args@) };
        self.source_instructions.push(Instruction { operator, args });
        proof {
            assert(self@.sources =~= old(self)@.sources.push(m));
        }
    }

    /// The step instructions, in the order they were appended.
    pub fn steps(&self) -> (r: &Vec<Instruction>)
        ensures
            instruction_views(r@) == self@.steps,
    {
        &self.step_instructions
    }

    /// The source instructions, in the order they were appended.
    pub fn sources(&self) -> (r: &Vec<Instruction>)
        ensures
            instruction_views(r@) == self@.sources,
    {
        &self.source_instructions
    }
}

impl Clone for Bytecode {
    /// Duplicates the program as an independent copy with the same model: the
    /// copy and the original can diverge afterwards without affecting each
    /// other.
    fn clone(&self) -> (r: Self)
        ensures
            r@ == self@,
    {
        let r = Bytecode {
            source_instructions: clone_instructions(&self.source_instructions),
            step_instructions: clone_instructions(&self.step_instructions),
        };
        r
    }
}

/// Clones a vector of instructions; every element of the copy has the model of
/// the original element.
fn clone_instructions(v: &Vec<Instruction>) -> (r: Vec<Instruction>)
    ensures
        instruction_views(r@) == instruction_views(v@),
{
    let mut r: Vec<Instruction> = Vec::new();
    let n = v.len();
    let mut i: usize = 0;
    while i < n
        invariant
            n == v.len(),
            i <= n,
            r@.len() == i,
            forall|k: int| 0 <= k < i ==> #[trigger] r@[k]@ == v@[k]@,
        decreases n - i,
    {
        r.push(v[i].clone());
        i = i + 1;
    }
    proof {
        assert(instruction_views(r@) =~= instruction_views(v@));
    }
    r
}

/// The program that results from appending, in order, each instruction of
/// `instrs` as a step of `b`: the model of a chain of
/// [`Bytecode::add_step`] calls.
pub open spec fn append_steps(b: BytecodeModel, instrs: Seq<InstructionModel>) -> BytecodeModel
    decreases instrs.len(),
{
    if instrs.len() == 0 {
        b
    } else {
        append_steps(
            BytecodeModel { sources: b.sources, steps: b.steps.push(instrs[0]) },
            instrs.subrange(1, instrs.len() as int),
        )
    }
}

/// Program-order preservation: appending a sequence of instructions grows the
/// step sequence by exactly that many instructions; the instruction appended
/// by call `i` sits at position `i` after the earlier steps, in call order;
/// every earlier step is unchanged; and the source sequence is untouched.
pub proof fn lemma_append_steps_program_order(b: BytecodeModel, instrs: Seq<InstructionModel>)
    ensures
        append_steps(b, instrs).steps.len() == b.steps.len() + instrs.len(),
        forall|i: int|
            0 <= i < instrs.len() ==> append_steps(b, instrs).steps[b.steps.len() + i]
                == instrs[i],
        forall|k: int| 0 <= k < b.steps.len() ==> append_steps(b, instrs).steps[k] == b.steps[k],
        append_steps(b, instrs).sources == b.sources,
    decreases instrs.len(),
{
    if instrs.len() == 0 {
    } else {
        let b1 = BytecodeModel { sources: b.sources, steps: b.steps.push(instrs[0]) };
        let rest = instrs.subrange(1, instrs.len() as int);
        lemma_append_steps_program_order(b1, rest);
        assert forall|i: int| 0 <= i < instrs.len() implies append_steps(b, instrs).steps[b.steps.len() + i]
            == instrs[i] by {
            if i == 0 {
                assert(append_steps(b, instrs).steps[b.steps.len() as int] == b1.steps[b.steps.len() as int]);
            } else {
                assert(append_steps(b1, rest).steps[b1.steps.len() + (i - 1)] == rest[i - 1]);
            }
        }
        assert forall|k: int| 0 <= k < b.steps.len() implies append_steps(b, instrs).steps[k]
            == b.steps[k] by {
            assert(append_steps(b1, rest).steps[k] == b1.steps[k]);
            assert(b1.steps[k] == b.steps[k]);
        }
    }
}

/// Appending one instruction never mutates instructions appended by earlier
/// calls: each earlier step is the very same instruction before and after.
pub proof fn lemma_append_step_preserves_earlier(
    b: BytecodeModel,
    instr: InstructionModel,
    k: int,
)
    requires
        0 <= k < b.steps.len(),
    ensures
        append_steps(b, seq![instr]).steps[k] == b.steps[k],
{
    lemma_append_steps_program_order(b, seq![instr]);
}

} // verus!
