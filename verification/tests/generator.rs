use stylus_benchmark::generator::{
    generate_wat, wat, wat_file_name, write_add_i32_wat_ops, write_wat_beginning, write_wat_end,
    write_xor_i32_wat_ops, NUMBER_OF_LOOP_ITERATIONS, NUMBER_OF_OPS_PER_LOOP_ITERATION,
};
use stylus_benchmark::scenario::Scenario;
use stylus_benchmark::text::append;

const BEGINNING: &str = "(module
    (import \"debug\" \"start_benchmark\" (func $start_benchmark))
    (import \"debug\" \"end_benchmark\" (func $end_benchmark))
    (memory (export \"memory\") 0 0)
    (global $ops_counter (mut i32) (i32.const 0))
    (func (export \"user_entrypoint\") (param i32) (result i32)
        call $start_benchmark
        (loop $loop
";

fn expected_end(ops_per_iteration: usize, total: usize) -> String {
    format!(
        "            global.get $ops_counter
            i32.const {}
            i32.add
            global.set $ops_counter
            global.get $ops_counter
            i32.const {}
            i32.lt_s
            br_if $loop)
        call $end_benchmark
        i32.const 0)
)",
        ops_per_iteration, total
    )
}

fn expected_ops(seed: &str, constant: &str, operator: &str, count: usize) -> String {
    let mut text = format!("            i32.const {}\n", seed);
    for _ in 0..count {
        text.push_str(&format!("            i32.const {}\n", constant));
        text.push_str(&format!("            {}\n", operator));
    }
    text.push_str("            drop\n");
    text
}

fn expected_module(scenario: Scenario) -> String {
    let ops = match scenario {
        Scenario::AddI32 => expected_ops("0", "1", "i32.add", 2000),
        Scenario::XorI32 => expected_ops("1231", "12312313", "i32.xor", 2000),
    };
    format!("{}{}{}", BEGINNING, ops, expected_end(2000, 400_000_000))
}

fn lines_of(module: &[u8]) -> Vec<String> {
    String::from_utf8(module.to_vec()).unwrap().lines().map(|l| l.trim().to_string()).collect()
}

#[test]
fn loop_parameters_have_their_fixed_values() {
    assert_eq!(NUMBER_OF_LOOP_ITERATIONS, 200_000);
    assert_eq!(NUMBER_OF_OPS_PER_LOOP_ITERATION, 2_000);
}

#[test]
fn append_adds_the_bytes_of_the_text() {
    let mut out = b"ab".to_vec();
    append(&mut out, "cd\n");
    assert_eq!(out, b"abcd\n".to_vec());
    append(&mut out, "");
    assert_eq!(out, b"abcd\n".to_vec());
}

#[test]
fn beginning_is_the_fixed_prologue() {
    let mut out = Vec::new();
    write_wat_beginning(&mut out);
    assert_eq!(String::from_utf8(out).unwrap(), BEGINNING);
}

#[test]
fn beginning_is_appended_to_what_is_there() {
    let mut out = b";; head\n".to_vec();
    write_wat_beginning(&mut out);
    assert_eq!(String::from_utf8(out).unwrap(), format!(";; head\n{}", BEGINNING));
}

#[test]
fn end_embeds_the_count_per_pass_and_the_total() {
    let mut out = Vec::new();
    write_wat_end(&mut out, 200_000, 2_000);
    assert_eq!(String::from_utf8(out).unwrap(), expected_end(2_000, 400_000_000));
}

#[test]
fn end_multiplies_iterations_by_operations() {
    let mut out = Vec::new();
    write_wat_end(&mut out, 3, 7);
    assert_eq!(String::from_utf8(out).unwrap(), expected_end(7, 21));
    let mut out = Vec::new();
    write_wat_end(&mut out, 0, 5);
    assert_eq!(String::from_utf8(out).unwrap(), expected_end(5, 0));
    let mut out = b"x".to_vec();
    write_wat_end(&mut out, 1, 1);
    assert_eq!(String::from_utf8(out).unwrap(), format!("x{}", expected_end(1, 1)));
}

#[test]
fn add_ops_are_unrolled_exactly() {
    for count in [0usize, 1, 2, 5, 2000] {
        let mut out = Vec::new();
        write_add_i32_wat_ops(&mut out, count);
        assert_eq!(String::from_utf8(out).unwrap(), expected_ops("0", "1", "i32.add", count));
    }
}

#[test]
fn xor_ops_are_unrolled_exactly() {
    for count in [0usize, 1, 2, 5, 2000] {
        let mut out = Vec::new();
        write_xor_i32_wat_ops(&mut out, count);
        assert_eq!(
            String::from_utf8(out).unwrap(),
            expected_ops("1231", "12312313", "i32.xor", count)
        );
    }
}

#[test]
fn ops_with_small_count_read_as_written() {
    let mut out = Vec::new();
    write_add_i32_wat_ops(&mut out, 2);
    let text = "            i32.const 0\n            i32.const 1\n            i32.add\n            i32.const 1\n            i32.add\n            drop\n";
    assert_eq!(String::from_utf8(out).unwrap(), text);
}

#[test]
fn generated_module_is_the_expected_text() {
    for scenario in Scenario::all_scenarios() {
        let module = generate_wat(scenario);
        assert_eq!(String::from_utf8(module).unwrap(), expected_module(scenario));
    }
}

#[test]
fn wat_and_generate_wat_agree() {
    for scenario in Scenario::all_scenarios() {
        assert_eq!(wat(scenario), generate_wat(scenario));
    }
}

#[test]
fn generation_is_idempotent() {
    for scenario in Scenario::all_scenarios() {
        assert_eq!(generate_wat(scenario), generate_wat(scenario));
    }
}

#[test]
fn scenarios_differ_in_their_modules() {
    assert_ne!(generate_wat(Scenario::AddI32), generate_wat(Scenario::XorI32));
}

#[test]
fn parentheses_are_matched() {
    for scenario in Scenario::all_scenarios() {
        let module = generate_wat(scenario);
        let mut depth: i64 = 0;
        for (at, byte) in module.iter().enumerate() {
            if *byte == b'(' {
                depth += 1;
            } else if *byte == b')' {
                depth -= 1;
            }
            assert!(depth >= 0);
            if at + 1 < module.len() {
                assert!(depth > 0);
            }
        }
        assert_eq!(depth, 0);
    }
}

#[test]
fn operand_stack_is_balanced_in_the_loop_body() {
    for scenario in Scenario::all_scenarios() {
        let lines = lines_of(&generate_wat(scenario));
        let start = lines.iter().position(|l| l == "(loop $loop").unwrap();
        let mut height: i64 = 0;
        for line in &lines[start + 1..] {
            let line = line.trim_end_matches(')');
            if line.starts_with("i32.const") || line.starts_with("global.get") {
                height += 1;
            } else if line == "i32.add" || line == "i32.xor" || line == "i32.lt_s" {
                assert!(height >= 2);
                height -= 1;
            } else if line == "drop" || line.starts_with("global.set") || line.starts_with("br_if")
            {
                assert!(height >= 1);
                height -= 1;
            } else if line.starts_with("call") || line.is_empty() {
            } else {
                panic!("unexpected instruction {:?}", line);
            }
            if line.starts_with("br_if") {
                assert_eq!(height, 0);
            }
        }
        assert_eq!(height, 1);
    }
}

#[test]
fn module_executes_the_operator_once_per_operation() {
    let add = lines_of(&generate_wat(Scenario::AddI32));
    assert_eq!(add.iter().filter(|l| *l == "i32.const 1").count(), 2000);
    // one more `i32.add` updates the counter
    assert_eq!(add.iter().filter(|l| *l == "i32.add").count(), 2001);
    assert_eq!(add.iter().filter(|l| *l == "i32.xor").count(), 0);
    let xor = lines_of(&generate_wat(Scenario::XorI32));
    assert_eq!(xor.iter().filter(|l| *l == "i32.const 12312313").count(), 2000);
    assert_eq!(xor.iter().filter(|l| *l == "i32.xor").count(), 2000);
    assert_eq!(xor.iter().filter(|l| *l == "i32.add").count(), 1);
}

#[test]
fn termination_check_compares_with_the_total() {
    for scenario in Scenario::all_scenarios() {
        let lines = lines_of(&generate_wat(scenario));
        let at = lines.iter().position(|l| l == "i32.lt_s").unwrap();
        assert_eq!(lines[at - 1], "i32.const 400000000");
        assert_eq!(lines[at - 2], "global.get $ops_counter");
        assert_eq!(lines[at + 1], "br_if $loop)");
        assert_eq!(lines[at - 3], "global.set $ops_counter");
        assert_eq!(lines[at - 4], "i32.add");
        assert_eq!(lines[at - 5], "i32.const 2000");
        assert_eq!(lines[at - 6], "global.get $ops_counter");
        assert_eq!(400_000_000, NUMBER_OF_LOOP_ITERATIONS * NUMBER_OF_OPS_PER_LOOP_ITERATION);
    }
}

#[test]
fn module_has_the_documented_shape() {
    for scenario in Scenario::all_scenarios() {
        let text = String::from_utf8(generate_wat(scenario)).unwrap();
        assert!(text.starts_with("(module\n"));
        assert!(text.ends_with("        call $end_benchmark\n        i32.const 0)\n)"));
        assert_eq!(text.matches("(import \"debug\" \"start_benchmark\"").count(), 1);
        assert_eq!(text.matches("(import \"debug\" \"end_benchmark\"").count(), 1);
        assert_eq!(text.matches("(memory (export \"memory\") 0 0)").count(), 1);
        assert_eq!(text.matches("(export \"user_entrypoint\")").count(), 1);
        assert_eq!(text.matches("call $start_benchmark").count(), 1);
        assert_eq!(text.matches("call $end_benchmark").count(), 1);
        assert_eq!(text.matches("(loop").count(), 1);
        assert!(text.is_ascii());
    }
}

#[test]
fn file_name_is_the_canonical_name_with_extension() {
    assert_eq!(wat_file_name(Scenario::AddI32), "add_i32.wat");
    assert_eq!(wat_file_name(Scenario::XorI32), "xor_i32.wat");
}
