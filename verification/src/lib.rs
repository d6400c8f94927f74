//! Generation of synthetic WebAssembly text modules that benchmark the
//! throughput of single instructions.

pub mod decimal;
pub mod scenario;
pub mod text;
pub mod layout;
pub mod nesting;
mod line_nesting;
pub mod module_nesting;
pub mod instructions;
pub mod loop_body;
pub mod generator;

pub use generator::{
    generate_wat, wat, wat_file_name, write_add_i32_wat_ops, write_wat_beginning, write_wat_end,
    write_xor_i32_wat_ops,
};
pub use scenario::{ParseError, Scenario};
