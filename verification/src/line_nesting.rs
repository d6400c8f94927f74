//! The nesting of each line of a benchmark module.
//!
//! Each lemma says of one line by how much it changes the nesting depth and
//! how low it takes the depth on the way. Each is proved by reading the line
//! byte by byte.

use vstd::prelude::*;
use vstd::string::*;
use crate::nesting::{depth, lemma_lowest_bounds, lowest, spans, stays_open};
use crate::text::text;

verus! {

pub(crate) proof fn lemma_module_line_stays_open()
    ensures
        stays_open(text("(module\n")),
        depth(text("(module\n"), text("(module\n").len()) == 1,
{
    let line = "(module\n";
    reveal_strlit("(module\n");
    assert(is_ascii(line));
    is_ascii_spec_bytes(line);
    let s = text(line);
    assert(s.len() == 8);
    reveal_with_fuel(depth, 9);
    assert(depth(s, 1) == 1);
    assert(depth(s, 8) == 1);
    assert forall|i: nat| 0 < i <= s.len() implies #[trigger] depth(s, i) >= 1 by {
        assert(i == 1 || i == 2 || i == 3 || i == 4 || i == 5 || i == 6 || i == 7 || i == 8);
    }
}

pub(crate) proof fn lemma_import_start_line()
    ensures
        spans(text("    (import \"debug\" \"start_benchmark\" (func $start_benchmark))\n"), 0, 0),
{
    let line = "    (import \"debug\" \"start_benchmark\" (func $start_benchmark))\n";
    reveal_strlit("    (import \"debug\" \"start_benchmark\" (func $start_benchmark))\n");
    assert(is_ascii(line));
    is_ascii_spec_bytes(line);
    let s = text(line);
    assert(s.len() == 63);
    reveal_with_fuel(depth, 64);
    reveal_with_fuel(lowest, 64);
    assert(depth(s, 63) == 0);
    assert(lowest(s, 63) == 0);
    lemma_lowest_bounds(s, 63);
}

pub(crate) proof fn lemma_import_end_line()
    ensures
        spans(text("    (import \"debug\" \"end_benchmark\" (func $end_benchmark))\n"), 0, 0),
{
    let line = "    (import \"debug\" \"end_benchmark\" (func $end_benchmark))\n";
    reveal_strlit("    (import \"debug\" \"end_benchmark\" (func $end_benchmark))\n");
    assert(is_ascii(line));
    is_ascii_spec_bytes(line);
    let s = text(line);
    assert(s.len() == 59);
    reveal_with_fuel(depth, 60);
    reveal_with_fuel(lowest, 60);
    assert(depth(s, 59) == 0);
    assert(lowest(s, 59) == 0);
    lemma_lowest_bounds(s, 59);
}

pub(crate) proof fn lemma_memory_line()
    ensures
        spans(text("    (memory (export \"memory\") 0 0)\n"), 0, 0),
{
    let line = "    (memory (export \"memory\") 0 0)\n";
    reveal_strlit("    (memory (export \"memory\") 0 0)\n");
    assert(is_ascii(line));
    is_ascii_spec_bytes(line);
    let s = text(line);
    assert(s.len() == 35);
    reveal_with_fuel(depth, 36);
    reveal_with_fuel(lowest, 36);
    assert(depth(s, 35) == 0);
    assert(lowest(s, 35) == 0);
    lemma_lowest_bounds(s, 35);
}

pub(crate) proof fn lemma_global_line()
    ensures
        spans(text("    (global $ops_counter (mut i32) (i32.const 0))\n"), 0, 0),
{
    let line = "    (global $ops_counter (mut i32) (i32.const 0))\n";
    reveal_strlit("    (global $ops_counter (mut i32) (i32.const 0))\n");
    assert(is_ascii(line));
    is_ascii_spec_bytes(line);
    let s = text(line);
    assert(s.len() == 50);
    reveal_with_fuel(depth, 51);
    reveal_with_fuel(lowest, 51);
    assert(depth(s, 50) == 0);
    assert(lowest(s, 50) == 0);
    lemma_lowest_bounds(s, 50);
}

pub(crate) proof fn lemma_func_line()
    ensures
        spans(text("    (func (export \"user_entrypoint\") (param i32) (result i32)\n"), 0, 1),
{
    let line = "    (func (export \"user_entrypoint\") (param i32) (result i32)\n";
    reveal_strlit("    (func (export \"user_entrypoint\") (param i32) (result i32)\n");
    assert(is_ascii(line));
    is_ascii_spec_bytes(line);
    let s = text(line);
    assert(s.len() == 62);
    reveal_with_fuel(depth, 63);
    reveal_with_fuel(lowest, 63);
    assert(depth(s, 62) == 1);
    assert(lowest(s, 62) == 0);
    lemma_lowest_bounds(s, 62);
}

pub(crate) proof fn lemma_call_start_line()
    ensures
        spans(text("        call $start_benchmark\n"), 0, 0),
{
    let line = "        call $start_benchmark\n";
    reveal_strlit("        call $start_benchmark\n");
    assert(is_ascii(line));
    is_ascii_spec_bytes(line);
    let s = text(line);
    assert(s.len() == 30);
    reveal_with_fuel(depth, 31);
    reveal_with_fuel(lowest, 31);
    assert(depth(s, 30) == 0);
    assert(lowest(s, 30) == 0);
    lemma_lowest_bounds(s, 30);
}

pub(crate) proof fn lemma_loop_line()
    ensures
        spans(text("        (loop $loop\n"), 0, 1),
{
    let line = "        (loop $loop\n";
    reveal_strlit("        (loop $loop\n");
    assert(is_ascii(line));
    is_ascii_spec_bytes(line);
    let s = text(line);
    assert(s.len() == 20);
    reveal_with_fuel(depth, 21);
    reveal_with_fuel(lowest, 21);
    assert(depth(s, 20) == 1);
    assert(lowest(s, 20) == 0);
    lemma_lowest_bounds(s, 20);
}

pub(crate) proof fn lemma_add_seed_line()
    ensures
        spans(text("            i32.const 0\n"), 0, 0),
{
    let line = "            i32.const 0\n";
    reveal_strlit("            i32.const 0\n");
    assert(is_ascii(line));
    is_ascii_spec_bytes(line);
    let s = text(line);
    assert(s.len() == 24);
    reveal_with_fuel(depth, 25);
    reveal_with_fuel(lowest, 25);
    assert(depth(s, 24) == 0);
    assert(lowest(s, 24) == 0);
    lemma_lowest_bounds(s, 24);
}

pub(crate) proof fn lemma_xor_seed_line()
    ensures
        spans(text("            i32.const 1231\n"), 0, 0),
{
    let line = "            i32.const 1231\n";
    reveal_strlit("            i32.const 1231\n");
    assert(is_ascii(line));
    is_ascii_spec_bytes(line);
    let s = text(line);
    assert(s.len() == 27);
    reveal_with_fuel(depth, 28);
    reveal_with_fuel(lowest, 28);
    assert(depth(s, 27) == 0);
    assert(lowest(s, 27) == 0);
    lemma_lowest_bounds(s, 27);
}

pub(crate) proof fn lemma_add_operand_line()
    ensures
        spans(text("            i32.const 1\n"), 0, 0),
{
    let line = "            i32.const 1\n";
    reveal_strlit("            i32.const 1\n");
    assert(is_ascii(line));
    is_ascii_spec_bytes(line);
    let s = text(line);
    assert(s.len() == 24);
    reveal_with_fuel(depth, 25);
    reveal_with_fuel(lowest, 25);
    assert(depth(s, 24) == 0);
    assert(lowest(s, 24) == 0);
    lemma_lowest_bounds(s, 24);
}

pub(crate) proof fn lemma_add_line()
    ensures
        spans(text("            i32.add\n"), 0, 0),
{
    let line = "            i32.add\n";
    reveal_strlit("            i32.add\n");
    assert(is_ascii(line));
    is_ascii_spec_bytes(line);
    let s = text(line);
    assert(s.len() == 20);
    reveal_with_fuel(depth, 21);
    reveal_with_fuel(lowest, 21);
    assert(depth(s, 20) == 0);
    assert(lowest(s, 20) == 0);
    lemma_lowest_bounds(s, 20);
}

pub(crate) proof fn lemma_xor_operand_line()
    ensures
        spans(text("            i32.const 12312313\n"), 0, 0),
{
    let line = "            i32.const 12312313\n";
    reveal_strlit("            i32.const 12312313\n");
    assert(is_ascii(line));
    is_ascii_spec_bytes(line);
    let s = text(line);
    assert(s.len() == 31);
    reveal_with_fuel(depth, 32);
    reveal_with_fuel(lowest, 32);
    assert(depth(s, 31) == 0);
    assert(lowest(s, 31) == 0);
    lemma_lowest_bounds(s, 31);
}

pub(crate) proof fn lemma_xor_line()
    ensures
        spans(text("            i32.xor\n"), 0, 0),
{
    let line = "            i32.xor\n";
    reveal_strlit("            i32.xor\n");
    assert(is_ascii(line));
    is_ascii_spec_bytes(line);
    let s = text(line);
    assert(s.len() == 20);
    reveal_with_fuel(depth, 21);
    reveal_with_fuel(lowest, 21);
    assert(depth(s, 20) == 0);
    assert(lowest(s, 20) == 0);
    lemma_lowest_bounds(s, 20);
}

pub(crate) proof fn lemma_drop_line()
    ensures
        spans(text("            drop\n"), 0, 0),
{
    let line = "            drop\n";
    reveal_strlit("            drop\n");
    assert(is_ascii(line));
    is_ascii_spec_bytes(line);
    let s = text(line);
    assert(s.len() == 17);
    reveal_with_fuel(depth, 18);
    reveal_with_fuel(lowest, 18);
    assert(depth(s, 17) == 0);
    assert(lowest(s, 17) == 0);
    lemma_lowest_bounds(s, 17);
}

pub(crate) proof fn lemma_const_prefix()
    ensures
        spans(text("            i32.const "), 0, 0),
{
    let line = "            i32.const ";
    reveal_strlit("            i32.const ");
    assert(is_ascii(line));
    is_ascii_spec_bytes(line);
    let s = text(line);
    assert(s.len() == 22);
    reveal_with_fuel(depth, 23);
    reveal_with_fuel(lowest, 23);
    assert(depth(s, 22) == 0);
    assert(lowest(s, 22) == 0);
    lemma_lowest_bounds(s, 22);
}

pub(crate) proof fn lemma_line_break()
    ensures
        spans(text("\n"), 0, 0),
{
    let line = "\n";
    reveal_strlit("\n");
    assert(is_ascii(line));
    is_ascii_spec_bytes(line);
    let s = text(line);
    assert(s.len() == 1);
    reveal_with_fuel(depth, 2);
    reveal_with_fuel(lowest, 2);
    assert(depth(s, 1) == 0);
    assert(lowest(s, 1) == 0);
    lemma_lowest_bounds(s, 1);
}

pub(crate) proof fn lemma_counter_get_line()
    ensures
        spans(text("            global.get $ops_counter\n"), 0, 0),
{
    let line = "            global.get $ops_counter\n";
    reveal_strlit("            global.get $ops_counter\n");
    assert(is_ascii(line));
    is_ascii_spec_bytes(line);
    let s = text(line);
    assert(s.len() == 36);
    reveal_with_fuel(depth, 37);
    reveal_with_fuel(lowest, 37);
    assert(depth(s, 36) == 0);
    assert(lowest(s, 36) == 0);
    lemma_lowest_bounds(s, 36);
}

pub(crate) proof fn lemma_counter_set_line()
    ensures
        spans(text("            global.set $ops_counter\n"), 0, 0),
{
    let line = "            global.set $ops_counter\n";
    reveal_strlit("            global.set $ops_counter\n");
    assert(is_ascii(line));
    is_ascii_spec_bytes(line);
    let s = text(line);
    assert(s.len() == 36);
    reveal_with_fuel(depth, 37);
    reveal_with_fuel(lowest, 37);
    assert(depth(s, 36) == 0);
    assert(lowest(s, 36) == 0);
    lemma_lowest_bounds(s, 36);
}

pub(crate) proof fn lemma_less_than_line()
    ensures
        spans(text("            i32.lt_s\n"), 0, 0),
{
    let line = "            i32.lt_s\n";
    reveal_strlit("            i32.lt_s\n");
    assert(is_ascii(line));
    is_ascii_spec_bytes(line);
    let s = text(line);
    assert(s.len() == 21);
    reveal_with_fuel(depth, 22);
    reveal_with_fuel(lowest, 22);
    assert(depth(s, 21) == 0);
    assert(lowest(s, 21) == 0);
    lemma_lowest_bounds(s, 21);
}

pub(crate) proof fn lemma_branch_line()
    ensures
        spans(text("            br_if $loop)\n"), -1, -1),
{
    let line = "            br_if $loop)\n";
    reveal_strlit("            br_if $loop)\n");
    assert(is_ascii(line));
    is_ascii_spec_bytes(line);
    let s = text(line);
    assert(s.len() == 25);
    reveal_with_fuel(depth, 26);
    reveal_with_fuel(lowest, 26);
    assert(depth(s, 25) == -1);
    assert(lowest(s, 25) == -1);
    lemma_lowest_bounds(s, 25);
}

pub(crate) proof fn lemma_call_end_line()
    ensures
        spans(text("        call $end_benchmark\n"), 0, 0),
{
    let line = "        call $end_benchmark\n";
    reveal_strlit("        call $end_benchmark\n");
    assert(is_ascii(line));
    is_ascii_spec_bytes(line);
    let s = text(line);
    assert(s.len() == 28);
    reveal_with_fuel(depth, 29);
    reveal_with_fuel(lowest, 29);
    assert(depth(s, 28) == 0);
    assert(lowest(s, 28) == 0);
    lemma_lowest_bounds(s, 28);
}

pub(crate) proof fn lemma_result_line()
    ensures
        spans(text("        i32.const 0)\n"), -1, -1),
{
    let line = "        i32.const 0)\n";
    reveal_strlit("        i32.const 0)\n");
    assert(is_ascii(line));
    is_ascii_spec_bytes(line);
    let s = text(line);
    assert(s.len() == 21);
    reveal_with_fuel(depth, 22);
    reveal_with_fuel(lowest, 22);
    assert(depth(s, 21) == -1);
    assert(lowest(s, 21) == -1);
    lemma_lowest_bounds(s, 21);
}

pub(crate) proof fn lemma_module_close()
    ensures
        spans(text(")"), -1, -1),
        text(")").len() == 1,
{
    let line = ")";
    reveal_strlit(")");
    assert(is_ascii(line));
    is_ascii_spec_bytes(line);
    let s = text(line);
    assert(s.len() == 1);
    reveal_with_fuel(depth, 2);
    reveal_with_fuel(lowest, 2);
    assert(depth(s, 1) == -1);
    assert(lowest(s, 1) == -1);
    lemma_lowest_bounds(s, 1);
}

} // verus!
