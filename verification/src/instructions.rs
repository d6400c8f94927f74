//! The instructions of the loop of a benchmark module, and what they do to
//! the operand stack.

use vstd::prelude::*;
use crate::layout::push_constant;
use crate::scenario::Scenario;
use crate::text::{repeated, text};

verus! {

/// An instruction in the loop of a benchmark module.
pub enum Instruction {
    /// `i32.const`, with its operand.
    Const(nat),
    /// `i32.add`.
    Add,
    /// `i32.xor`.
    Xor,
    /// `i32.lt_s`.
    LessThan,
    /// `drop`.
    Drop,
    /// `global.get` of the operation counter.
    GetCounter,
    /// `global.set` of the operation counter.
    SetCounter,
    /// `br_if` to the head of the loop. It is the last instruction of the
    /// loop, and its line closes the loop.
    BranchIf,
}

impl Instruction {
    /// How many operands the instruction takes from the stack.
    pub open spec fn pops(self) -> int {
        match self {
            Instruction::Const(_) | Instruction::GetCounter => 0,
            Instruction::Add | Instruction::Xor | Instruction::LessThan => 2,
            Instruction::Drop | Instruction::SetCounter | Instruction::BranchIf => 1,
        }
    }

    /// How many results the instruction leaves on the stack.
    pub open spec fn pushes(self) -> int {
        match self {
            Instruction::Const(_) | Instruction::GetCounter => 1,
            Instruction::Add | Instruction::Xor | Instruction::LessThan => 1,
            Instruction::Drop | Instruction::SetCounter | Instruction::BranchIf => 0,
        }
    }

    /// The line of text that holds the instruction.
    pub open spec fn line(self) -> Seq<u8> {
        match self {
            Instruction::Const(value) => push_constant(value),
            Instruction::Add => text("            i32.add\n"),
            Instruction::Xor => text("            i32.xor\n"),
            Instruction::LessThan => text("            i32.lt_s\n"),
            Instruction::Drop => text("            drop\n"),
            Instruction::GetCounter => text("            global.get $ops_counter\n"),
            Instruction::SetCounter => text("            global.set $ops_counter\n"),
            Instruction::BranchIf => text("            br_if $loop)\n"),
        }
    }
}

/// The lines of `code`, one after the other.
pub open spec fn lines(code: Seq<Instruction>) -> Seq<u8>
    decreases code.len(),
{
    if code.len() == 0 {
        Seq::empty()
    } else {
        lines(code.drop_last()) + code.last().line()
    }
}

/// By how much the first `end` instructions of `code` raise the stack.
pub open spec fn height(code: Seq<Instruction>, end: nat) -> int
    decreases end,
{
    if end == 0 {
        0
    } else {
        height(code, (end - 1) as nat) - code[end - 1].pops() + code[end - 1].pushes()
    }
}

/// Run on a stack of `start` values, every instruction of `code` finds the
/// operands that it takes, and `code` as a whole raises the stack by `net`.
pub open spec fn runs(code: Seq<Instruction>, start: int, net: int) -> bool {
    &&& height(code, code.len()) == net
    &&& forall|k: nat| k < code.len() ==> start + #[trigger] height(code, k) >= code[k as int].pops()
}

/// How often `instruction` stands in `code`.
pub open spec fn occurrences(code: Seq<Instruction>, instruction: Instruction) -> nat
    decreases code.len(),
{
    if code.len() == 0 {
        0
    } else if code.last() == instruction {
        occurrences(code.drop_last(), instruction) + 1
    } else {
        occurrences(code.drop_last(), instruction)
    }
}

/// `block` executed `count` times in a row.
pub open spec fn unrolled(block: Seq<Instruction>, count: nat) -> Seq<Instruction>
    decreases count,
{
    if count == 0 {
        Seq::empty()
    } else {
        unrolled(block, (count - 1) as nat) + block
    }
}

/// The value with which the scenario starts.
pub open spec fn seed_value(scenario: Scenario) -> nat {
    match scenario {
        Scenario::AddI32 => 0,
        Scenario::XorI32 => 1231,
    }
}

/// The constant that each operation of the scenario combines with the
/// running value.
pub open spec fn operand(scenario: Scenario) -> nat {
    match scenario {
        Scenario::AddI32 => 1,
        Scenario::XorI32 => 12312313,
    }
}

/// The instruction that the scenario measures.
pub open spec fn operator(scenario: Scenario) -> Instruction {
    match scenario {
        Scenario::AddI32 => Instruction::Add,
        Scenario::XorI32 => Instruction::Xor,
    }
}

/// One operation of the scenario.
pub open spec fn operation_code(scenario: Scenario) -> Seq<Instruction> {
    seq![Instruction::Const(operand(scenario)), operator(scenario)]
}

/// The workload of one pass: the seed, `count` operations, the discard.
pub open spec fn workload_code(scenario: Scenario, count: nat) -> Seq<Instruction> {
    seq![Instruction::Const(seed_value(scenario))] + unrolled(operation_code(scenario), count)
        + seq![Instruction::Drop]
}

/// What follows the workload in each pass: the counter of executed
/// operations grows by `ops_per_iteration`, and the loop is entered again
/// while the counter is below `total_ops`.
pub open spec fn bookkeeping_code(ops_per_iteration: nat, total_ops: nat) -> Seq<Instruction> {
    seq![
        Instruction::GetCounter,
        Instruction::Const(ops_per_iteration),
        Instruction::Add,
        Instruction::SetCounter,
        Instruction::GetCounter,
        Instruction::Const(total_ops),
        Instruction::LessThan,
        Instruction::BranchIf,
    ]
}

/// The whole loop of a module that runs `iterations` passes of
/// `ops_per_iteration` operations.
pub open spec fn loop_code(scenario: Scenario, iterations: nat, ops_per_iteration: nat) -> Seq<
    Instruction,
> {
    workload_code(scenario, ops_per_iteration) + bookkeeping_code(
        ops_per_iteration,
        iterations * ops_per_iteration,
    )
}

/// The rise within `a + b` is that within `a`, and then that of `a` as a
/// whole plus that within `b`.
pub proof fn lemma_height_concat(a: Seq<Instruction>, b: Seq<Instruction>, i: nat)
    requires
        i <= a.len() + b.len(),
    ensures
        height(a + b, i) == if i <= a.len() {
            height(a, i)
        } else {
            height(a, a.len()) + height(b, (i - a.len()) as nat)
        },
    decreases i,
{
    if i > 0 {
        lemma_height_concat(a, b, (i - 1) as nat);
        if i <= a.len() {
            assert((a + b)[i - 1] == a[i - 1]);
        } else {
            let j = (i - a.len()) as nat;
            assert((a + b)[i - 1] == b[j - 1]);
            assert(height(b, 0) == 0);
            assert(height(b, j) == height(b, (j - 1) as nat) - b[j - 1].pops() + b[j - 1].pushes());
        }
    }
}

/// Code that runs, followed by code that runs on the stack that the first
/// leaves, runs as a whole.
pub proof fn lemma_runs_concat(
    a: Seq<Instruction>,
    start: int,
    na: int,
    b: Seq<Instruction>,
    nb: int,
)
    requires
        runs(a, start, na),
        runs(b, start + na, nb),
    ensures
        runs(a + b, start, na + nb),
{
    lemma_height_concat(a, b, (a + b).len());
    assert forall|k: nat| k < (a + b).len() implies start + #[trigger] height(a + b, k) >= (a
        + b)[k as int].pops() by {
        lemma_height_concat(a, b, k);
        if k < a.len() {
            assert(start + height(a, k) >= a[k as int].pops());
        } else {
            let j = (k - a.len()) as nat;
            assert(height(b, 0) == 0);
            assert(start + na + height(b, j) >= b[j as int].pops());
            assert((a + b)[k as int] == b[j as int]);
        }
    }
}

/// Code that runs and leaves the stack as high as it found it runs any
/// number of times in a row.
pub proof fn lemma_runs_unrolled(block: Seq<Instruction>, start: int, count: nat)
    requires
        runs(block, start, 0),
    ensures
        runs(unrolled(block, count), start, 0),
    decreases count,
{
    if count > 0 {
        lemma_runs_unrolled(block, start, (count - 1) as nat);
        lemma_runs_concat(unrolled(block, (count - 1) as nat), start, 0, block, 0);
    }
}

/// An instruction stands in two pieces of code in a row as often as in
/// the first and in the second together.
pub proof fn lemma_occurrences_concat(
    a: Seq<Instruction>,
    b: Seq<Instruction>,
    instruction: Instruction,
)
    ensures
        occurrences(a + b, instruction) == occurrences(a, instruction) + occurrences(
            b,
            instruction,
        ),
    decreases b.len(),
{
    if b.len() == 0 {
        assert(a + b =~= a);
    } else {
        lemma_occurrences_concat(a, b.drop_last(), instruction);
        assert((a + b).drop_last() =~= a + b.drop_last());
        assert((a + b).last() == b.last());
    }
}

/// An instruction that stands once in a block stands `count` times in
/// `count` copies of it.
pub proof fn lemma_occurrences_unrolled(
    block: Seq<Instruction>,
    count: nat,
    instruction: Instruction,
)
    requires
        occurrences(block, instruction) == 1,
    ensures
        occurrences(unrolled(block, count), instruction) == count,
    decreases count,
{
    if count > 0 {
        lemma_occurrences_unrolled(block, (count - 1) as nat, instruction);
        lemma_occurrences_concat(unrolled(block, (count - 1) as nat), block, instruction);
    }
}

/// The lines of two pieces of code in a row are the lines of the first and
/// then those of the second.
pub proof fn lemma_lines_concat(a: Seq<Instruction>, b: Seq<Instruction>)
    ensures
        lines(a + b) == lines(a) + lines(b),
    decreases b.len(),
{
    if b.len() == 0 {
        assert(a + b =~= a);
        assert(lines(a) + lines(b) =~= lines(a));
    } else {
        lemma_lines_concat(a, b.drop_last());
        assert((a + b).drop_last() =~= a + b.drop_last());
        assert((a + b).last() == b.last());
        assert(lines(a + b) =~= lines(a) + lines(b));
    }
}

/// The lines of unrolled code are the lines of the block, repeated.
pub proof fn lemma_lines_unrolled(block: Seq<Instruction>, count: nat)
    ensures
        lines(unrolled(block, count)) == repeated(lines(block), count),
    decreases count,
{
    if count > 0 {
        lemma_lines_unrolled(block, (count - 1) as nat);
        lemma_lines_concat(unrolled(block, (count - 1) as nat), block);
    }
}

} // verus!
