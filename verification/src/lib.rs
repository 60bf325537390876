//! Arithmetization core for a WebAssembly execution trace.
//!
//! Each WASM instruction family is described by an opcode configuration: a
//! builder that allocates typed circuit cells and registers the family's
//! algebraic constraints, and a runtime side that fills one row of witness
//! values from one execution-step entry.  Constraints are expression trees
//! over cells; a row is valid for an opcode when every constraint registered
//! by that opcode evaluates to zero on the row's values.

pub mod allocator;
pub mod builder;
pub mod circuit;
pub mod datacache;
pub mod encode;
pub mod etable;
pub mod expr;
pub mod fieldval;
pub mod op_bin;
pub mod op_call;
pub mod op_conversion;
pub mod op_local_set;
pub mod op_memory_grow;
pub mod op_rel;
pub mod row;
pub mod semantics;
