//! A small virtual machine for a line-oriented, assembly-like instruction
//! format.
//!
//! Each source line names one operation and a list of operands; operands
//! address a single flat memory space split by sign: non-negative addresses
//! index a growable store of numeric slots, negative addresses index an
//! append-only store of materialized string literals.  The crate provides
//! the tokenizer that turns a line into typed operands, the two-phase
//! preprocessor that resolves operator names and label/variable references,
//! the memory model, and the opcode handlers with their control-flow signal
//! protocol.  Numeric slots hold IEEE 754 double-precision values,
//! represented throughout by their 64-bit encoding.

pub mod code;
pub mod error;
pub mod eval;
pub mod laws;
pub mod lex;
pub mod mem;
pub mod num;
pub mod op;
pub mod prep;
pub mod table;
pub mod text;

pub use error::Error;
