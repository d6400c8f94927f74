//! The loop of a generated module, instruction by instruction: the text of
//! the loop is the lines of its instructions, and the instructions keep the
//! operand stack in order.

use vstd::prelude::*;
use vstd::string::*;
use crate::decimal::decimal_digits;
use crate::instructions::{
    bookkeeping_code, height, lemma_lines_concat, lemma_lines_unrolled,
    lemma_occurrences_concat, lemma_occurrences_unrolled, lemma_runs_concat, lemma_runs_unrolled,
    lines, loop_code, occurrences, operand, operation_code, operator, runs, seed_value, unrolled,
    workload_code, Instruction,
};
use crate::layout::{
    counter_update, discard, operation, push_constant, seed, termination_check, workload,
};
use crate::scenario::Scenario;
use crate::text::text;

verus! {

/// The line that seeds the addition pushes the constant zero.
proof fn lemma_add_seed_text()
    ensures
        text("            i32.const 0\n") == push_constant(0),
{
    let whole = "            i32.const 0\n";
    let head = "            i32.const ";
    let end = "\n";
    reveal_strlit("            i32.const 0\n");
    reveal_strlit("            i32.const ");
    reveal_strlit("\n");
    assert(is_ascii(whole) && is_ascii(head) && is_ascii(end));
    is_ascii_spec_bytes(whole);
    is_ascii_spec_bytes(head);
    is_ascii_spec_bytes(end);
    reveal_with_fuel(decimal_digits, 2);
    assert(decimal_digits(0) =~= seq![48u8]);
    assert(text(whole) =~= text(head) + decimal_digits(0) + text(end));
}

/// The operand line of the addition pushes the constant one.
proof fn lemma_add_operand_text()
    ensures
        text("            i32.const 1\n") == push_constant(1),
{
    let whole = "            i32.const 1\n";
    let head = "            i32.const ";
    let end = "\n";
    reveal_strlit("            i32.const 1\n");
    reveal_strlit("            i32.const ");
    reveal_strlit("\n");
    assert(is_ascii(whole) && is_ascii(head) && is_ascii(end));
    is_ascii_spec_bytes(whole);
    is_ascii_spec_bytes(head);
    is_ascii_spec_bytes(end);
    reveal_with_fuel(decimal_digits, 2);
    assert(decimal_digits(1) =~= seq![49u8]);
    assert(text(whole) =~= text(head) + decimal_digits(1) + text(end));
}

/// The line that seeds the exclusive or pushes the constant 1231.
proof fn lemma_xor_seed_text()
    ensures
        text("            i32.const 1231\n") == push_constant(1231),
{
    let whole = "            i32.const 1231\n";
    let head = "            i32.const ";
    let end = "\n";
    reveal_strlit("            i32.const 1231\n");
    reveal_strlit("            i32.const ");
    reveal_strlit("\n");
    assert(is_ascii(whole) && is_ascii(head) && is_ascii(end));
    is_ascii_spec_bytes(whole);
    is_ascii_spec_bytes(head);
    is_ascii_spec_bytes(end);
    reveal_with_fuel(decimal_digits, 5);
    assert(decimal_digits(1231) =~= seq![49u8, 50u8, 51u8, 49u8]);
    assert(text(whole) =~= text(head) + decimal_digits(1231) + text(end));
}

/// The operand line of the exclusive or pushes the constant 12312313.
proof fn lemma_xor_operand_text()
    ensures
        text("            i32.const 12312313\n") == push_constant(12312313),
{
    let whole = "            i32.const 12312313\n";
    let head = "            i32.const ";
    let end = "\n";
    reveal_strlit("            i32.const 12312313\n");
    reveal_strlit("            i32.const ");
    reveal_strlit("\n");
    assert(is_ascii(whole) && is_ascii(head) && is_ascii(end));
    is_ascii_spec_bytes(whole);
    is_ascii_spec_bytes(head);
    is_ascii_spec_bytes(end);
    reveal_with_fuel(decimal_digits, 9);
    assert(decimal_digits(12312313) =~= seq![49u8, 50u8, 51u8, 49u8, 50u8, 51u8, 49u8, 51u8]);
    assert(text(whole) =~= text(head) + decimal_digits(12312313) + text(end));
}

/// The lines of code with one more instruction are the lines of the code
/// and then the line of the instruction.
proof fn lemma_lines_push(code: Seq<Instruction>, last: Instruction)
    ensures
        lines(code.push(last)) == lines(code) + last.line(),
{
    assert(code.push(last).drop_last() =~= code);
}

/// The text of the workload is the lines of its code.
pub proof fn lemma_workload_text(scenario: Scenario, count: nat)
    ensures
        workload(scenario, count) == lines(workload_code(scenario, count)),
{
    let none = Seq::<Instruction>::empty();
    let first = Instruction::Const(seed_value(scenario));
    let push = Instruction::Const(operand(scenario));
    lemma_add_seed_text();
    lemma_add_operand_text();
    lemma_xor_seed_text();
    lemma_xor_operand_text();
    assert(lines(none) =~= Seq::<u8>::empty());
    lemma_lines_push(none, first);
    lemma_lines_push(none, Instruction::Drop);
    lemma_lines_push(none, push);
    lemma_lines_push(none.push(push), operator(scenario));
    assert(lines(seq![first]) =~= seed(scenario));
    assert(lines(seq![Instruction::Drop]) =~= discard());
    assert(operation_code(scenario) =~= none.push(push).push(operator(scenario)));
    assert(lines(none.push(push)) =~= push_constant(operand(scenario)));
    assert(lines(operation_code(scenario)) =~= operation(scenario)) by {
        match scenario {
            Scenario::AddI32 => {
                assert(operator(scenario).line() == text("            i32.add\n"));
            },
            Scenario::XorI32 => {
                assert(operator(scenario).line() == text("            i32.xor\n"));
            },
        }
    }
    lemma_lines_unrolled(operation_code(scenario), count);
    lemma_lines_concat(seq![first], unrolled(operation_code(scenario), count));
    lemma_lines_concat(
        seq![first] + unrolled(operation_code(scenario), count),
        seq![Instruction::Drop],
    );
}

/// The text of the counter update and of the termination check is the lines
/// of the bookkeeping code.
pub proof fn lemma_bookkeeping_text(ops_per_iteration: nat, total_ops: nat)
    ensures
        counter_update(ops_per_iteration) + termination_check(total_ops) == lines(
            bookkeeping_code(ops_per_iteration, total_ops),
        ),
{
    let c0 = Seq::<Instruction>::empty();
    let c1 = c0.push(Instruction::GetCounter);
    let c2 = c1.push(Instruction::Const(ops_per_iteration));
    let c3 = c2.push(Instruction::Add);
    let c4 = c3.push(Instruction::SetCounter);
    let c5 = c4.push(Instruction::GetCounter);
    let c6 = c5.push(Instruction::Const(total_ops));
    let c7 = c6.push(Instruction::LessThan);
    let c8 = c7.push(Instruction::BranchIf);
    assert(lines(c0) =~= Seq::<u8>::empty());
    lemma_lines_push(c0, Instruction::GetCounter);
    lemma_lines_push(c1, Instruction::Const(ops_per_iteration));
    lemma_lines_push(c2, Instruction::Add);
    lemma_lines_push(c3, Instruction::SetCounter);
    lemma_lines_push(c4, Instruction::GetCounter);
    lemma_lines_push(c5, Instruction::Const(total_ops));
    lemma_lines_push(c6, Instruction::LessThan);
    lemma_lines_push(c7, Instruction::BranchIf);
    assert(c8 == bookkeeping_code(ops_per_iteration, total_ops));
    assert(lines(c4) =~= counter_update(ops_per_iteration));
    assert(lines(c8) =~= counter_update(ops_per_iteration) + termination_check(total_ops));
}

/// The text of the loop, from its first instruction to the parenthesis that
/// closes it, is the lines of the loop's code.
pub proof fn lemma_loop_text(scenario: Scenario, iterations: nat, ops_per_iteration: nat)
    ensures
        workload(scenario, ops_per_iteration) + counter_update(ops_per_iteration)
            + termination_check(iterations * ops_per_iteration) == lines(
            loop_code(scenario, iterations, ops_per_iteration),
        ),
{
    let total = iterations * ops_per_iteration;
    lemma_workload_text(scenario, ops_per_iteration);
    lemma_bookkeeping_text(ops_per_iteration, total);
    lemma_lines_concat(
        workload_code(scenario, ops_per_iteration),
        bookkeeping_code(ops_per_iteration, total),
    );
    assert(workload(scenario, ops_per_iteration) + counter_update(ops_per_iteration)
        + termination_check(total) =~= workload(scenario, ops_per_iteration) + (counter_update(
        ops_per_iteration,
    ) + termination_check(total)));
}

/// The workload executes the instruction that the scenario measures
/// exactly `count` times.
pub proof fn lemma_workload_operator_count(scenario: Scenario, count: nat)
    ensures
        occurrences(workload_code(scenario, count), operator(scenario)) == count,
{
    let measured = operator(scenario);
    let none = Seq::<Instruction>::empty();
    let first = seq![Instruction::Const(seed_value(scenario))];
    let block = operation_code(scenario);
    let last = seq![Instruction::Drop];
    assert(occurrences(none, measured) == 0);
    assert(first.drop_last() =~= none);
    assert(last.drop_last() =~= none);
    assert(occurrences(first, measured) == 0);
    assert(occurrences(last, measured) == 0);
    assert(occurrences(block, measured) == 1) by {
        let half = seq![Instruction::Const(operand(scenario))];
        assert(half.drop_last() =~= none);
        assert(block.drop_last() =~= half);
        assert(block.last() == measured);
        assert(occurrences(half, measured) == 0);
    }
    lemma_occurrences_unrolled(block, count, measured);
    lemma_occurrences_concat(first, unrolled(block, count), measured);
    lemma_occurrences_concat(first + unrolled(block, count), last, measured);
}

/// The workload starts and ends on an empty stack, with every operand in
/// place: the seed is the running value, each operation pushes a constant
/// and combines it with the running value, and the discard takes the
/// running value away.
pub proof fn lemma_workload_stack(scenario: Scenario, count: nat)
    ensures
        runs(workload_code(scenario, count), 0, 0),
{
    let first = seq![Instruction::Const(seed_value(scenario))];
    let block = operation_code(scenario);
    let last = seq![Instruction::Drop];
    reveal_with_fuel(height, 3);
    assert(runs(first, 0, 1));
    assert(runs(block, 1, 0)) by {
        assert(block[0] == Instruction::Const(operand(scenario)));
        assert(block[1] == operator(scenario));
        assert(height(block, 1) == 1);
        assert(height(block, 2) == 0);
        assert forall|k: nat| k < block.len() implies 1 + #[trigger] height(block, k)
            >= block[k as int].pops() by {
            assert(k == 0 || k == 1);
        }
    }
    assert(runs(last, 1, -1));
    lemma_runs_unrolled(block, 1, count);
    lemma_runs_concat(first, 0, 1, unrolled(block, count), 0);
    lemma_runs_concat(first + unrolled(block, count), 0, 1, last, -1);
}

/// The bookkeeping starts and ends on an empty stack, with every operand in
/// place.
pub proof fn lemma_bookkeeping_stack(ops_per_iteration: nat, total_ops: nat)
    ensures
        runs(bookkeeping_code(ops_per_iteration, total_ops), 0, 0),
{
    let code = bookkeeping_code(ops_per_iteration, total_ops);
    reveal_with_fuel(height, 9);
    assert(code.len() == 8);
    assert(height(code, 8) == 0);
    assert forall|k: nat| k < code.len() implies #[trigger] height(code, k) >= code[k as int].pops() by {
        assert(k == 0 || k == 1 || k == 2 || k == 3 || k == 4 || k == 5 || k == 6 || k == 7);
    }
}

/// Every pass of the loop starts and ends on an empty operand stack, and
/// each of its instructions finds the operands that it takes.
pub proof fn lemma_loop_stack(scenario: Scenario, iterations: nat, ops_per_iteration: nat)
    ensures
        runs(loop_code(scenario, iterations, ops_per_iteration), 0, 0),
{
    lemma_workload_stack(scenario, ops_per_iteration);
    lemma_bookkeeping_stack(ops_per_iteration, iterations * ops_per_iteration);
    lemma_runs_concat(
        workload_code(scenario, ops_per_iteration),
        0,
        0,
        bookkeeping_code(ops_per_iteration, iterations * ops_per_iteration),
        0,
    );
}

} // verus!
