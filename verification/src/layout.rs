//! The text of a benchmark module, stated piece by piece.
//!
//! A module imports two timing markers, exports an empty memory and one
//! entry function, and keeps a counter of executed operations in a global.
//! The entry function calls the start marker, runs one loop, calls the end
//! marker and returns zero. Each pass of the loop executes the scenario's
//! instruction a fixed number of times, adds that number to the counter and
//! branches back while the counter is below the total.

use vstd::prelude::*;
use crate::decimal::decimal_digits;
use crate::scenario::Scenario;
use crate::text::{lemma_repeated_copies, repeated, stretch, text};

verus! {

/// Everything up to and including the opening of the loop.
pub open spec fn beginning() -> Seq<u8> {
    text("(module\n")
        + text("    (import \"debug\" \"start_benchmark\" (func $start_benchmark))\n")
        + text("    (import \"debug\" \"end_benchmark\" (func $end_benchmark))\n")
        + text("    (memory (export \"memory\") 0 0)\n")
        + text("    (global $ops_counter (mut i32) (i32.const 0))\n")
        + text("    (func (export \"user_entrypoint\") (param i32) (result i32)\n")
        + text("        call $start_benchmark\n")
        + text("        (loop $loop\n")
}

/// The instruction that pushes the value on which the scenario works.
pub open spec fn seed(scenario: Scenario) -> Seq<u8> {
    match scenario {
        Scenario::AddI32 => text("            i32.const 0\n"),
        Scenario::XorI32 => text("            i32.const 1231\n"),
    }
}

/// One operation of the scenario: push a constant, then apply the binary
/// operator to it and the running value.
pub open spec fn operation(scenario: Scenario) -> Seq<u8> {
    match scenario {
        Scenario::AddI32 => text("            i32.const 1\n") + text("            i32.add\n"),
        Scenario::XorI32 => text("            i32.const 12312313\n") + text(
            "            i32.xor\n",
        ),
    }
}

/// The instruction that discards the running value.
pub open spec fn discard() -> Seq<u8> {
    text("            drop\n")
}

/// The unrolled workload of one pass of the loop: the seed, `count`
/// operations, and the discard.
pub open spec fn workload(scenario: Scenario, count: nat) -> Seq<u8> {
    seed(scenario) + repeated(operation(scenario), count) + discard()
}

/// The bytes of a workload of `count` operations at the place of the `k`-th
/// operation, counted from zero.
pub open spec fn operation_at(scenario: Scenario, count: nat, k: nat) -> Seq<u8> {
    workload(scenario, count).subrange(
        (seed(scenario).len() + k * operation(scenario).len()) as int,
        (seed(scenario).len() + (k + 1) * operation(scenario).len()) as int,
    )
}

/// A workload of `count` operations holds exactly that many: it is as long
/// as the seed, `count` operations and the discard together, and at each of
/// the `count` places after the seed stands the operation of the scenario.
pub proof fn lemma_workload_operations(scenario: Scenario, count: nat)
    ensures
        workload(scenario, count).len() == seed(scenario).len() + count * operation(
            scenario,
        ).len() + discard().len(),
        forall|k: nat|
            k < count ==> #[trigger] operation_at(scenario, count, k) == operation(scenario),
{
    let block = operation(scenario);
    let width = block.len();
    let copies = repeated(block, count);
    lemma_repeated_copies(block, count);
    assert forall|k: nat| k < count implies #[trigger] operation_at(scenario, count, k)
        == block by {
        assert((k + 1) * width <= count * width) by (nonlinear_arith)
            requires
                k + 1 <= count,
        ;
        assert((k + 1) * width == k * width + width) by (nonlinear_arith);
        assert(stretch(copies, width, k) == block);
        assert(operation_at(scenario, count, k) =~= stretch(copies, width, k));
    }
}

/// An `i32.const` instruction with the operand `value`, at loop depth.
pub open spec fn push_constant(value: nat) -> Seq<u8> {
    text("            i32.const ") + decimal_digits(value) + text("\n")
}

/// Adds `ops_per_iteration` to the counter of executed operations.
pub open spec fn counter_update(ops_per_iteration: nat) -> Seq<u8> {
    text("            global.get $ops_counter\n") + push_constant(ops_per_iteration) + text(
        "            i32.add\n",
    ) + text("            global.set $ops_counter\n")
}

/// Branches back to the head of the loop while the counter is below
/// `total_ops` (signed comparison), and closes the loop.
pub open spec fn termination_check(total_ops: nat) -> Seq<u8> {
    text("            global.get $ops_counter\n") + push_constant(total_ops) + text(
        "            i32.lt_s\n",
    ) + text("            br_if $loop)\n")
}

/// The call of the end marker, the return value, and the closing of the
/// function and of the module.
pub open spec fn closing() -> Seq<u8> {
    text("        call $end_benchmark\n") + text("        i32.const 0)\n") + text(")")
}

/// Everything after the workload, for a loop that runs `iterations` times
/// with `ops_per_iteration` operations in each pass.
pub open spec fn ending(iterations: nat, ops_per_iteration: nat) -> Seq<u8> {
    counter_update(ops_per_iteration) + termination_check(iterations * ops_per_iteration)
        + closing()
}

/// The whole module.
pub open spec fn module(scenario: Scenario, iterations: nat, ops_per_iteration: nat) -> Seq<u8> {
    beginning() + workload(scenario, ops_per_iteration) + ending(iterations, ops_per_iteration)
}

} // verus!
