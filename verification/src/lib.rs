//! Injection of runtime parameter-type guard clauses into statically
//! typed sources: a parsed module is walked for function-like
//! declarations, each checkable parameter yields a guard-clause patch
//! anchored at the function's body-start offset, and a drift-correcting
//! applier splices every patch into the original byte buffer at its true
//! live position.

pub mod act_patch;
pub mod act_process;
pub mod act_structs;
pub mod args_parser;
pub mod ast;
pub mod patch_index_helper;
pub mod patch_laws;
