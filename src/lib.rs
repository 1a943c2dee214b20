//! A small stack-based bytecode virtual machine over unsigned 64-bit words.
//!
//! `instruction` models single operations, `machine` runs programs of them,
//! `laws` states and proves properties of runs.

pub mod fault;
pub mod instruction;
pub mod laws;
pub mod machine;
