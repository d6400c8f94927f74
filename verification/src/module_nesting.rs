//! A generated module is one parenthesised expression.

use vstd::prelude::*;
use crate::decimal::{all_digits, decimal_digits, lemma_decimal_round_trip};
use crate::layout::{
    beginning, closing, counter_update, discard, ending, module, operation, push_constant, seed,
    termination_check, workload,
};
use crate::line_nesting::{
    lemma_add_line, lemma_add_operand_line, lemma_add_seed_line, lemma_branch_line,
    lemma_call_end_line, lemma_call_start_line, lemma_const_prefix, lemma_counter_get_line,
    lemma_counter_set_line, lemma_drop_line, lemma_func_line, lemma_global_line,
    lemma_import_end_line, lemma_import_start_line, lemma_less_than_line, lemma_line_break,
    lemma_loop_line, lemma_memory_line, lemma_module_close, lemma_module_line_stays_open,
    lemma_result_line, lemma_xor_line, lemma_xor_operand_line, lemma_xor_seed_line,
};
use crate::nesting::{
    depth, lemma_depth_concat, lemma_spans_concat, lemma_spans_plain, lemma_spans_repeated,
    lemma_stays_open_concat, one_expression, spans, stays_open, weight,
};
use crate::scenario::Scenario;
use crate::text::{repeated, text};

verus! {

/// The head of the module opens the module, the function and the loop, and
/// closes none of them.
pub proof fn lemma_beginning_nesting()
    ensures
        stays_open(beginning()),
        depth(beginning(), beginning().len()) == 3,
{
    let l1 = text("(module\n");
    let l2 = text("    (import \"debug\" \"start_benchmark\" (func $start_benchmark))\n");
    let l3 = text("    (import \"debug\" \"end_benchmark\" (func $end_benchmark))\n");
    let l4 = text("    (memory (export \"memory\") 0 0)\n");
    let l5 = text("    (global $ops_counter (mut i32) (i32.const 0))\n");
    let l6 = text("    (func (export \"user_entrypoint\") (param i32) (result i32)\n");
    let l7 = text("        call $start_benchmark\n");
    let l8 = text("        (loop $loop\n");
    lemma_module_line_stays_open();
    lemma_import_start_line();
    lemma_import_end_line();
    lemma_memory_line();
    lemma_global_line();
    lemma_func_line();
    lemma_call_start_line();
    lemma_loop_line();
    lemma_stays_open_concat(l1, 1, l2, 0, 0);
    lemma_stays_open_concat(l1 + l2, 1, l3, 0, 0);
    lemma_stays_open_concat(l1 + l2 + l3, 1, l4, 0, 0);
    lemma_stays_open_concat(l1 + l2 + l3 + l4, 1, l5, 0, 0);
    lemma_stays_open_concat(l1 + l2 + l3 + l4 + l5, 1, l6, 0, 1);
    lemma_stays_open_concat(l1 + l2 + l3 + l4 + l5 + l6, 2, l7, 0, 0);
    lemma_stays_open_concat(l1 + l2 + l3 + l4 + l5 + l6 + l7, 2, l8, 0, 1);
}

/// The workload of one pass holds no parenthesis that it does not close.
pub proof fn lemma_workload_nesting(scenario: Scenario, count: nat)
    ensures
        spans(workload(scenario, count), 0, 0),
{
    lemma_add_seed_line();
    lemma_xor_seed_line();
    lemma_add_operand_line();
    lemma_add_line();
    lemma_xor_operand_line();
    lemma_xor_line();
    lemma_drop_line();
    match scenario {
        Scenario::AddI32 => {
            lemma_spans_concat(
                text("            i32.const 1\n"),
                0,
                0,
                text("            i32.add\n"),
                0,
                0,
            );
        },
        Scenario::XorI32 => {
            lemma_spans_concat(
                text("            i32.const 12312313\n"),
                0,
                0,
                text("            i32.xor\n"),
                0,
                0,
            );
        },
    }
    lemma_spans_repeated(operation(scenario), count);
    lemma_spans_concat(seed(scenario), 0, 0, repeated(operation(scenario), count), 0, 0);
    lemma_spans_concat(
        seed(scenario) + repeated(operation(scenario), count),
        0,
        0,
        discard(),
        0,
        0,
    );
}

/// An `i32.const` instruction holds no parenthesis, whatever its operand.
pub proof fn lemma_push_constant_nesting(value: nat)
    ensures
        spans(push_constant(value), 0, 0),
{
    lemma_const_prefix();
    lemma_line_break();
    lemma_decimal_round_trip(value);
    let digits = decimal_digits(value);
    assert forall|i: int| 0 <= i < digits.len() implies weight(#[trigger] digits[i]) == 0 by {
        assert(all_digits(digits));
    }
    lemma_spans_plain(digits);
    lemma_spans_concat(text("            i32.const "), 0, 0, digits, 0, 0);
    lemma_spans_concat(text("            i32.const ") + digits, 0, 0, text("\n"), 0, 0);
}

/// The tail of the module closes the loop and the function, in two steps,
/// and then stands one level deep.
proof fn lemma_tail_nesting(iterations: nat, ops_per_iteration: nat)
    ensures
        spans(counter_update(ops_per_iteration), 0, 0),
        spans(termination_check(iterations * ops_per_iteration), -1, -1),
        spans(text("        call $end_benchmark\n"), 0, 0),
        spans(text("        i32.const 0)\n"), -1, -1),
{
    let total = iterations * ops_per_iteration;
    lemma_counter_get_line();
    lemma_counter_set_line();
    lemma_add_line();
    lemma_less_than_line();
    lemma_branch_line();
    lemma_call_end_line();
    lemma_result_line();
    lemma_push_constant_nesting(ops_per_iteration);
    lemma_push_constant_nesting(total);
    let get = text("            global.get $ops_counter\n");
    lemma_spans_concat(get, 0, 0, push_constant(ops_per_iteration), 0, 0);
    lemma_spans_concat(
        get + push_constant(ops_per_iteration),
        0,
        0,
        text("            i32.add\n"),
        0,
        0,
    );
    lemma_spans_concat(
        get + push_constant(ops_per_iteration) + text("            i32.add\n"),
        0,
        0,
        text("            global.set $ops_counter\n"),
        0,
        0,
    );
    lemma_spans_concat(get, 0, 0, push_constant(total), 0, 0);
    lemma_spans_concat(
        get + push_constant(total),
        0,
        0,
        text("            i32.lt_s\n"),
        0,
        0,
    );
    lemma_spans_concat(
        get + push_constant(total) + text("            i32.lt_s\n"),
        0,
        0,
        text("            br_if $loop)\n"),
        -1,
        -1,
    );
}

/// Every generated module is one parenthesised expression, whatever the
/// scenario and the two counts: its first byte opens a parenthesis that only
/// its last byte closes, and every other parenthesis is closed in between.
pub proof fn lemma_module_is_one_expression(
    scenario: Scenario,
    iterations: nat,
    ops_per_iteration: nat,
)
    ensures
        one_expression(module(scenario, iterations, ops_per_iteration)),
{
    let whole = module(scenario, iterations, ops_per_iteration);
    let update = counter_update(ops_per_iteration);
    let check = termination_check(iterations * ops_per_iteration);
    let call = text("        call $end_benchmark\n");
    let result = text("        i32.const 0)\n");
    let close = text(")");
    lemma_beginning_nesting();
    lemma_workload_nesting(scenario, ops_per_iteration);
    lemma_tail_nesting(iterations, ops_per_iteration);
    lemma_module_close();

    let h1 = beginning() + workload(scenario, ops_per_iteration);
    lemma_stays_open_concat(beginning(), 3, workload(scenario, ops_per_iteration), 0, 0);
    let h2 = h1 + update;
    lemma_stays_open_concat(h1, 3, update, 0, 0);
    let h3 = h2 + check;
    lemma_stays_open_concat(h2, 3, check, -1, -1);
    let h4 = h3 + call;
    lemma_stays_open_concat(h3, 2, call, 0, 0);
    let h5 = h4 + result;
    lemma_stays_open_concat(h4, 2, result, -1, -1);

    assert(closing() =~= call + result + close);
    assert(ending(iterations, ops_per_iteration) =~= update + check + (call + result + close));
    assert(whole =~= h5 + close);
    assert(h5.len() >= 1) by {
        if h5.len() == 0 {
            assert(depth(h5, 0) == 0);
        }
    }
    lemma_depth_concat(h5, close, whole.len());
    assert forall|i: nat| 0 < i < whole.len() implies #[trigger] depth(whole, i) > 0 by {
        lemma_depth_concat(h5, close, i);
    }
}

} // verus!
