//! Emission of a benchmark module into a byte buffer.
//!
//! The number of operations per pass of the loop is large enough to make
//! the cost of the loop itself negligible, and small enough to keep the
//! program in the instruction cache.

use vstd::prelude::*;
use vstd::string::*;
use crate::decimal::{decimal_digits, write_decimal};
use crate::layout::{
    beginning, closing, counter_update, ending, module, operation, push_constant,
    termination_check, workload,
};
use crate::scenario::Scenario;
use crate::text::{append, lemma_repeated_step, repeated, text};

verus! {

/// How often the loop of a generated module runs.
pub const NUMBER_OF_LOOP_ITERATIONS: usize = 200_000;

/// How many operations one pass of the loop executes.
pub const NUMBER_OF_OPS_PER_LOOP_ITERATION: usize = 2_000;

/// The module that benchmarks `scenario`.
pub open spec fn benchmark_module(scenario: Scenario) -> Seq<u8> {
    module(
        scenario,
        NUMBER_OF_LOOP_ITERATIONS as nat,
        NUMBER_OF_OPS_PER_LOOP_ITERATION as nat,
    )
}

/// In a benchmark module each pass of the loop adds 2000 to the counter of
/// executed operations, and the loop ends when the counter reaches
/// 400000000, the number of passes times the number of operations in each.
pub proof fn lemma_benchmark_counts()
    ensures
        NUMBER_OF_LOOP_ITERATIONS * NUMBER_OF_OPS_PER_LOOP_ITERATION == 400_000_000,
        push_constant(NUMBER_OF_OPS_PER_LOOP_ITERATION as nat) == text(
            "            i32.const 2000\n",
        ),
        push_constant((NUMBER_OF_LOOP_ITERATIONS * NUMBER_OF_OPS_PER_LOOP_ITERATION) as nat)
            == text("            i32.const 400000000\n"),
{
    let head = "            i32.const ";
    let end = "\n";
    let update = "            i32.const 2000\n";
    let check = "            i32.const 400000000\n";
    reveal_strlit("            i32.const ");
    reveal_strlit("\n");
    reveal_strlit("            i32.const 2000\n");
    reveal_strlit("            i32.const 400000000\n");
    assert(is_ascii(head) && is_ascii(end) && is_ascii(update) && is_ascii(check));
    is_ascii_spec_bytes(head);
    is_ascii_spec_bytes(end);
    is_ascii_spec_bytes(update);
    is_ascii_spec_bytes(check);
    reveal_with_fuel(decimal_digits, 10);
    assert(decimal_digits(2000) =~= seq![50u8, 48u8, 48u8, 48u8]);
    assert(decimal_digits(400_000_000) =~= seq![
        52u8,
        48u8,
        48u8,
        48u8,
        48u8,
        48u8,
        48u8,
        48u8,
        48u8,
    ]);
    assert(text(update) =~= text(head) + decimal_digits(2000) + text(end));
    assert(text(check) =~= text(head) + decimal_digits(400_000_000) + text(end));
}

/// The name of the file that holds the module of `scenario`.
pub open spec fn file_name(scenario: Scenario) -> Seq<char> {
    scenario.name() + ".wat"@
}

/// Appends the head of the module, up to the opening of the loop.
pub fn write_wat_beginning(wat: &mut Vec<u8>)
    ensures
        final(wat)@ == old(wat)@ + beginning(),
{
    append(wat, "(module\n");
    append(wat, "    (import \"debug\" \"start_benchmark\" (func $start_benchmark))\n");
    append(wat, "    (import \"debug\" \"end_benchmark\" (func $end_benchmark))\n");
    append(wat, "    (memory (export \"memory\") 0 0)\n");
    append(wat, "    (global $ops_counter (mut i32) (i32.const 0))\n");
    append(wat, "    (func (export \"user_entrypoint\") (param i32) (result i32)\n");
    append(wat, "        call $start_benchmark\n");
    append(wat, "        (loop $loop\n");
    assert(final(wat)@ =~= old(wat)@ + beginning());
}

/// Appends an `i32.const` instruction with the operand `value`.
fn write_push_constant(wat: &mut Vec<u8>, value: usize)
    ensures
        final(wat)@ == old(wat)@ + push_constant(value as nat),
{
    append(wat, "            i32.const ");
    write_decimal(wat, value);
    append(wat, "\n");
    assert(final(wat)@ =~= old(wat)@ + push_constant(value as nat));
}

/// Appends the instructions that add `ops_per_iteration` to the counter of
/// executed operations.
fn write_counter_update(wat: &mut Vec<u8>, ops_per_iteration: usize)
    ensures
        final(wat)@ == old(wat)@ + counter_update(ops_per_iteration as nat),
{
    append(wat, "            global.get $ops_counter\n");
    write_push_constant(wat, ops_per_iteration);
    append(wat, "            i32.add\n");
    append(wat, "            global.set $ops_counter\n");
    assert(final(wat)@ =~= old(wat)@ + counter_update(ops_per_iteration as nat));
}

/// Appends the check that branches back while the counter is below
/// `total_ops`.
fn write_termination_check(wat: &mut Vec<u8>, total_ops: usize)
    ensures
        final(wat)@ == old(wat)@ + termination_check(total_ops as nat),
{
    append(wat, "            global.get $ops_counter\n");
    write_push_constant(wat, total_ops);
    append(wat, "            i32.lt_s\n");
    append(wat, "            br_if $loop)\n");
    assert(final(wat)@ =~= old(wat)@ + termination_check(total_ops as nat));
}

/// Appends the call of the end marker and the return value, and closes the
/// function and the module.
fn write_closing(wat: &mut Vec<u8>)
    ensures
        final(wat)@ == old(wat)@ + closing(),
{
    append(wat, "        call $end_benchmark\n");
    append(wat, "        i32.const 0)\n");
    append(wat, ")");
    assert(final(wat)@ =~= old(wat)@ + closing());
}

/// Appends the tail of the module: the update of the operation counter,
/// the check that ends the loop after `number_of_loop_iterations` passes,
/// and the closing of the function and the module.
pub fn write_wat_end(
    wat: &mut Vec<u8>,
    number_of_loop_iterations: usize,
    number_of_ops_per_loop_iteration: usize,
)
    requires
        number_of_loop_iterations * number_of_ops_per_loop_iteration <= usize::MAX,
    ensures
        final(wat)@ == old(wat)@ + ending(
            number_of_loop_iterations as nat,
            number_of_ops_per_loop_iteration as nat,
        ),
{
    let number_of_ops: usize = number_of_loop_iterations * number_of_ops_per_loop_iteration;
    let ghost total: nat = (number_of_loop_iterations as nat) * (
    number_of_ops_per_loop_iteration as nat);
    assert(number_of_ops as nat == total);

    write_counter_update(wat, number_of_ops_per_loop_iteration);
    write_termination_check(wat, number_of_ops);
    write_closing(wat);
    assert(final(wat)@ =~= old(wat)@ + (counter_update(number_of_ops_per_loop_iteration as nat)
        + termination_check(total) + closing()));
}

/// Appends the workload of the addition scenario.
pub fn write_add_i32_wat_ops(wat: &mut Vec<u8>, number_of_ops_per_loop_iteration: usize)
    ensures
        final(wat)@ == old(wat)@ + workload(
            Scenario::AddI32,
            number_of_ops_per_loop_iteration as nat,
        ),
{
    append(wat, "            i32.const 0\n");
    let ghost seeded = wat@;
    let mut done: usize = 0;
    while done < number_of_ops_per_loop_iteration
        invariant
            done <= number_of_ops_per_loop_iteration,
            wat@ == seeded + repeated(operation(Scenario::AddI32), done as nat),
        decreases number_of_ops_per_loop_iteration - done,
    {
        append(wat, "            i32.const 1\n");
        append(wat, "            i32.add\n");
        proof {
            lemma_repeated_step(operation(Scenario::AddI32), done as nat);
            assert(wat@ =~= seeded + repeated(operation(Scenario::AddI32), (done + 1) as nat));
        }
        done += 1;
    }
    append(wat, "            drop\n");
    assert(final(wat)@ =~= old(wat)@ + workload(
        Scenario::AddI32,
        number_of_ops_per_loop_iteration as nat,
    ));
}

/// Appends the workload of the exclusive-or scenario.
pub fn write_xor_i32_wat_ops(wat: &mut Vec<u8>, number_of_ops_per_loop_iteration: usize)
    ensures
        final(wat)@ == old(wat)@ + workload(
            Scenario::XorI32,
            number_of_ops_per_loop_iteration as nat,
        ),
{
    append(wat, "            i32.const 1231\n");
    let ghost seeded = wat@;
    let mut done: usize = 0;
    while done < number_of_ops_per_loop_iteration
        invariant
            done <= number_of_ops_per_loop_iteration,
            wat@ == seeded + repeated(operation(Scenario::XorI32), done as nat),
        decreases number_of_ops_per_loop_iteration - done,
    {
        append(wat, "            i32.const 12312313\n");
        append(wat, "            i32.xor\n");
        proof {
            lemma_repeated_step(operation(Scenario::XorI32), done as nat);
            assert(wat@ =~= seeded + repeated(operation(Scenario::XorI32), (done + 1) as nat));
        }
        done += 1;
    }
    append(wat, "            drop\n");
    assert(final(wat)@ =~= old(wat)@ + workload(
        Scenario::XorI32,
        number_of_ops_per_loop_iteration as nat,
    ));
}

/// Builds the module that benchmarks `scenario`.
pub fn wat(scenario: Scenario) -> (module: Vec<u8>)
    ensures
        module@ == benchmark_module(scenario),
{
    let number_of_loop_iterations: usize = NUMBER_OF_LOOP_ITERATIONS;
    let number_of_ops_per_loop_iteration: usize = NUMBER_OF_OPS_PER_LOOP_ITERATION;

    let mut wat: Vec<u8> = Vec::new();

    write_wat_beginning(&mut wat);

    match scenario {
        Scenario::AddI32 => write_add_i32_wat_ops(&mut wat, number_of_ops_per_loop_iteration),
        Scenario::XorI32 => write_xor_i32_wat_ops(&mut wat, number_of_ops_per_loop_iteration),
    }

    write_wat_end(&mut wat, number_of_loop_iterations, number_of_ops_per_loop_iteration);

    assert(wat@ =~= benchmark_module(scenario));
    wat
}

/// Generates the module that benchmarks `scenario`: the same bytes on
/// every call.
pub fn generate_wat(scenario: Scenario) -> (module: Vec<u8>)
    ensures
        module@ == benchmark_module(scenario),
{
    wat(scenario)
}

/// Returns the name of the file in which the module of `scenario` is kept:
/// the canonical name with the extension `.wat`.
pub fn wat_file_name(scenario: Scenario) -> (name: String)
    ensures
        name@ == file_name(scenario),
{
    String::from_str(scenario.canonical_name()).concat(".wat")
}

} // verus!
