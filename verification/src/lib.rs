//! Lowering of control-flow terminators to a stack-machine bytecode target.
//!
//! A function arrives as a graph of basic blocks, each ending in one
//! control-transferring terminator.  This library decides, for every
//! terminator kind, which target instructions to emit; resolves callee
//! identity and calling convention, including the interop naming
//! conventions that encode foreign-object constructors and virtual or
//! non-virtual interop calls in a callee's export name; and derives the
//! call-site description needed to emit a verifiable call.
//!
//! Operand and place lowering, instance resolution and signature
//! derivation are collaborators of this engine: their results arrive as
//! plain values inside the input model, and the contracts here state the
//! emitted instruction stream exactly in terms of those values.

pub mod call;
pub mod cil;
pub mod convention;
pub mod diag;
pub mod errors;
pub mod linker;
pub mod mir;
pub mod properties;
pub mod terminator;
pub mod text;
