//! A small single-pass compiler back end: it walks an abstract syntax tree of
//! a C-like language and emits stack-machine-style x86-64 assembly in Intel
//! syntax.
pub mod assembly;
pub mod ast;
pub mod error;
pub mod gen_code;
pub mod infer_type;
pub mod label_discipline;
pub mod stack_discipline;
