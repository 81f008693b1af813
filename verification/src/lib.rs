//! A human-readable pretty-printer for the bytecode of a register-based
//! WebAssembly virtual machine.
//!
//! Each decoded instruction, together with a rendering context (the engine's
//! shared constant pool, provider-slice buffer and function-type interner,
//! plus read-only access to the runtime store for indirect calls), is turned
//! into exactly one line of canonical text.  The mapping is pure and total
//! over well-formed inputs, with two explicit failure signals: multi-way
//! branch tables are not implemented, and an indirect call whose declared
//! type index is missing from its instance is an internal-invariant
//! violation.

pub mod bytecode;
pub mod context;
pub mod display;
pub mod printer;
pub mod text;
