//! The unrecoverable backend-contract violations.  Each aborts lowering
//! of the current compilation unit: the interop conventions are a closed
//! contract between the front end and this backend, so a violation is a
//! front-end/backend mismatch, not a user error to recover from.

use vstd::prelude::*;

verus! {

/// Why lowering of a terminator was aborted.
#[derive(Clone, Copy, Debug, PartialEq, Eq, Structural)]
pub enum CodegenError {
    /// The callee type of a call terminator is not a function-definition
    /// type.
    NotAFunction,
    /// Resolving the callee yielded no single concrete function instance.
    UnresolvedInstance,
    /// The signature collaborator could not derive a monomorphized
    /// signature for the callee.
    MissingSignature,
    /// The called function operand is not a compile-time constant.
    NonConstCallee,
    /// An interop marker is not followed by a `_` separator.
    MissingSeparator,
    /// The characters between an interop marker and its separator are not
    /// a decimal argument count.
    BadArgCount,
    /// The generic-argument list does not have the arity the convention
    /// demands.
    WrongGenericArity,
    /// A generic-argument slot does not hold the kind of value the
    /// convention assigns to its position.
    WrongSlotKind,
    /// The actual argument list does not match the encoded argument count.
    WrongArgCount,
    /// A terminator kind this engine does not lower.
    UnsupportedTerminator,
    /// An assertion-failure message kind this engine does not lower.
    UnsupportedAssertMessage,
    /// A switch scrutinee type that is not an integer or boolean type, or
    /// whose width has no constant-load rule.
    UnsupportedSwitchType,
}

impl CodegenError {
    /// A short description, for the operator of the compiler host.
    pub fn message(&self) -> (r: &'static str)
        ensures
            (match self {
                CodegenError::NotAFunction => r@
                    == "the callee type of a call is not a function definition"@,
                CodegenError::UnresolvedInstance => r@
                    == "no concrete instance resolves for the callee"@,
                CodegenError::MissingSignature => r@
                    == "the callee signature could not be derived"@,
                CodegenError::NonConstCallee => r@
                    == "the called function operand must be constant"@,
                CodegenError::MissingSeparator => r@
                    == "an interop marker lacks its `_` separator"@,
                CodegenError::BadArgCount => r@
                    == "an interop marker lacks a decimal argument count"@,
                CodegenError::WrongGenericArity => r@
                    == "wrong number of generic-argument slots for the convention"@,
                CodegenError::WrongSlotKind => r@
                    == "a generic-argument slot holds the wrong kind of value"@,
                CodegenError::WrongArgCount => r@
                    == "actual arguments do not match the encoded argument count"@,
                CodegenError::UnsupportedTerminator => r@ == "unhandled terminator kind"@,
                CodegenError::UnsupportedAssertMessage => r@
                    == "unsupported assertion message kind"@,
                CodegenError::UnsupportedSwitchType => r@
                    == "unsupported switch scrutinee type"@,
            }),
    {
        match self {
            CodegenError::NotAFunction => "the callee type of a call is not a function definition",
            CodegenError::UnresolvedInstance => "no concrete instance resolves for the callee",
            CodegenError::MissingSignature => "the callee signature could not be derived",
            CodegenError::NonConstCallee => "the called function operand must be constant",
            CodegenError::MissingSeparator => "an interop marker lacks its `_` separator",
            CodegenError::BadArgCount => "an interop marker lacks a decimal argument count",
            CodegenError::WrongGenericArity => "wrong number of generic-argument slots for the convention",
            CodegenError::WrongSlotKind => "a generic-argument slot holds the wrong kind of value",
            CodegenError::WrongArgCount => "actual arguments do not match the encoded argument count",
            CodegenError::UnsupportedTerminator => "unhandled terminator kind",
            CodegenError::UnsupportedAssertMessage => "unsupported assertion message kind",
            CodegenError::UnsupportedSwitchType => "unsupported switch scrutinee type",
        }
    }
}

} // verus!
