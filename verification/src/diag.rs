//! Diagnostic lowering for assertion failures: instruction sequences that
//! construct and throw a runtime exception object carrying a formatted
//! message.
//!
//! Two policies exist side by side, chosen by configuration: a minimal
//! one that throws a bare null-message exception, and a full one that
//! stringifies the relevant operands with a runtime `ToString` call,
//! concatenates literal fragments and operands left to right with a
//! runtime `Concat` call, constructs an exception of a kind matching the
//! failure category, and throws it.

use vstd::prelude::*;

use crate::cil::{
    ops_view, types_view, CILOp, CILOpView, CallSite, CallSiteView, DotnetTypeRef,
    DotnetTypeRefView, FnSig, FnSigView, Type, TypeView,
};
use crate::errors::CodegenError;
use crate::mir::{handle_operand, AssertMessage, BinOp};

verus! {

broadcast use crate::cil::lemma_ops_view_add, crate::cil::lemma_ops_view_push;

/// The runtime type that stringifies a machine-word integer.
pub open spec fn spec_usize_class() -> DotnetTypeRefView {
    DotnetTypeRefView {
        assembly: Some("System.Runtime"@),
        name: "System.UIntPtr"@,
        is_valuetype: false,
    }
}

/// The runtime string type.
pub open spec fn spec_string_class() -> DotnetTypeRefView {
    DotnetTypeRefView { assembly: Some("System.Runtime"@), name: "System.String"@, is_valuetype: false }
}

/// The runtime string type, as a signature entry.
pub open spec fn spec_string_type() -> TypeView {
    TypeView::DotnetType(spec_string_class())
}

/// The runtime type that stringifies a machine-word integer.
pub fn usize_class() -> (r: DotnetTypeRef)
    ensures
        r@ == spec_usize_class(),
{
    DotnetTypeRef::new(Some("System.Runtime"), "System.UIntPtr")
}

/// The runtime string type.
pub fn string_class() -> (r: DotnetTypeRef)
    ensures
        r@ == spec_string_class(),
{
    DotnetTypeRef::new(Some("System.Runtime"), "System.String")
}

/// The call that converts the integer on top of the stack to its display
/// string.
pub open spec fn spec_usize_to_string() -> CallSiteView {
    CallSiteView {
        tpe: Some(spec_usize_class()),
        name: "ToString"@,
        signature: FnSigView { inputs: Seq::empty(), output: spec_string_type() },
        is_static: false,
    }
}

fn usize_to_string_site() -> (r: CallSite)
    ensures
        r@ == spec_usize_to_string(),
{
    let sig = FnSig { inputs: Vec::new(), output: Type::DotnetType(string_class()) };
    proof {
        assert(types_view(sig.inputs@) =~= Seq::<TypeView>::empty());
    }
    CallSite::new(Some(usize_class()), "ToString".to_owned(), sig, false)
}

/// The call that concatenates `arity` strings on the stack, left to
/// right.
pub open spec fn spec_string_concat(arity: int) -> CallSiteView {
    CallSiteView {
        tpe: Some(spec_string_class()),
        name: "Concat"@,
        signature: FnSigView {
            inputs: Seq::new(arity as nat, |i: int| spec_string_type()),
            output: spec_string_type(),
        },
        is_static: true,
    }
}

fn string_concat_site(arity: usize) -> (r: CallSite)
    ensures
        r@ == spec_string_concat(arity as int),
{
    let mut inputs: Vec<Type> = Vec::new();
    let mut i: usize = 0;
    while i < arity
        invariant
            i <= arity,
            inputs@.len() == i,
            forall|j: int| 0 <= j < i ==> #[trigger] inputs@[j]@ == spec_string_type(),
        decreases arity - i,
    {
        inputs.push(Type::DotnetType(string_class()));
        i = i + 1;
    }
    let sig = FnSig { inputs, output: Type::DotnetType(string_class()) };
    proof {
        assert(types_view(sig.inputs@) =~= Seq::new(arity as nat, |i: int| spec_string_type()));
    }
    CallSite::new(Some(string_class()), "Concat".to_owned(), sig, true)
}

/// The constructor of the exception type thrown for a failure category;
/// it takes the composed message as its single argument.
pub open spec fn spec_exception_ctor(exception: DotnetTypeRefView, with_message: bool)
    -> CallSiteView {
    CallSiteView {
        tpe: Some(exception),
        name: ".ctor"@,
        signature: FnSigView {
            inputs: if with_message {
                seq![spec_string_type()]
            } else {
                Seq::empty()
            },
            output: TypeView::Void,
        },
        is_static: false,
    }
}

fn exception_ctor_site(exception_name: &str, with_message: bool) -> (r: CallSite)
    ensures
        r@ == spec_exception_ctor(
            spec_type_in_runtime(exception_name@),
            with_message,
        ),
{
    let exception = DotnetTypeRef::new(Some("System.Runtime"), exception_name);
    let mut inputs: Vec<Type> = Vec::new();
    if with_message {
        inputs.push(Type::DotnetType(string_class()));
    }
    let sig = FnSig { inputs, output: Type::Void };
    proof {
        if with_message {
            assert(types_view(sig.inputs@) =~= seq![spec_string_type()]);
        } else {
            assert(types_view(sig.inputs@) =~= Seq::<TypeView>::empty());
        }
    }
    CallSite::new(Some(exception), ".ctor".to_owned(), sig, false)
}

/// The named type of the runtime assembly.
pub open spec fn spec_type_in_runtime(name: Seq<char>) -> DotnetTypeRefView {
    DotnetTypeRefView { assembly: Some("System.Runtime"@), name, is_valuetype: false }
}

/// The literal fragment that opens an overflow diagnostic for one
/// operator.
pub open spec fn spec_overflow_text(op: BinOp) -> Seq<char> {
    match op {
        BinOp::Add => "attempt to Add with overflow lhs:"@,
        BinOp::Sub => "attempt to Sub with overflow lhs:"@,
        BinOp::Mul => "attempt to Mul with overflow lhs:"@,
        BinOp::Shl => "attempt to Shl with overflow lhs:"@,
        BinOp::Shr => "attempt to Shr with overflow lhs:"@,
    }
}

fn overflow_text(op: &BinOp) -> (r: &'static str)
    ensures
        r@ == spec_overflow_text(*op),
{
    match op {
        BinOp::Add => "attempt to Add with overflow lhs:",
        BinOp::Sub => "attempt to Sub with overflow lhs:",
        BinOp::Mul => "attempt to Mul with overflow lhs:",
        BinOp::Shl => "attempt to Shl with overflow lhs:",
        BinOp::Shr => "attempt to Shr with overflow lhs:",
    }
}

/// What lowering an assertion failure emits.  Under the minimal policy a
/// bare null-message throw; under the full policy, for each failure
/// category, the literal fragments and stringified operands of its
/// message, concatenated left to right, then the construction and throw
/// of an exception of the matching kind.
pub open spec fn spec_throw_assert_msg(msg: AssertMessage, full_messages: bool) -> Result<
    Seq<CILOpView>,
    CodegenError,
> {
    if !full_messages {
        Ok(seq![CILOpView::LdNull, CILOpView::Throw])
    } else {
        match msg {
            AssertMessage::BoundsCheck { len, index } => Ok(
                seq![CILOpView::LdStr("index out of bounds: the len is "@)] + len@ + seq![
                    CILOpView::Call(spec_usize_to_string()),
                    CILOpView::LdStr(" but the index is"@),
                ] + index@ + seq![
                    CILOpView::Call(spec_usize_to_string()),
                    CILOpView::Call(spec_string_concat(4)),
                    CILOpView::NewObj(
                        spec_exception_ctor(
                            spec_type_in_runtime("System.IndexOutOfRangeException"@),
                            true,
                        ),
                    ),
                    CILOpView::Throw,
                ],
            ),
            AssertMessage::DivisionByZero(_) => Ok(
                seq![
                    CILOpView::NewObj(
                        spec_exception_ctor(
                            spec_type_in_runtime("System.DivideByZeroException"@),
                            false,
                        ),
                    ),
                    CILOpView::Throw,
                ],
            ),
            AssertMessage::RemainderByZero(_) => Ok(
                seq![
                    CILOpView::NewObj(
                        spec_exception_ctor(
                            spec_type_in_runtime("System.DivideByZeroException"@),
                            false,
                        ),
                    ),
                    CILOpView::Throw,
                ],
            ),
            AssertMessage::Overflow(op, a, b) => Ok(
                seq![CILOpView::LdStr(spec_overflow_text(op))] + a@ + seq![
                    CILOpView::Call(spec_usize_to_string()),
                    CILOpView::LdStr("rhs:"@),
                ] + b@ + seq![
                    CILOpView::Call(spec_usize_to_string()),
                    CILOpView::Call(spec_string_concat(4)),
                    CILOpView::NewObj(
                        spec_exception_ctor(
                            spec_type_in_runtime("System.ArithmeticException"@),
                            true,
                        ),
                    ),
                    CILOpView::Throw,
                ],
            ),
            AssertMessage::OverflowNeg(value) => Ok(
                seq![CILOpView::LdStr("attempt to neg with overflow value:"@)] + value@ + seq![
                    CILOpView::Call(spec_usize_to_string()),
                    CILOpView::LdStr("rhs:"@),
                    CILOpView::Call(spec_string_concat(3)),
                    CILOpView::NewObj(
                        spec_exception_ctor(
                            spec_type_in_runtime("System.ArithmeticException"@),
                            true,
                        ),
                    ),
                    CILOpView::Throw,
                ],
            ),
            AssertMessage::MisalignedPointerDereference { required, found } => Ok(
                seq![CILOpView::LdStr("misaligned pointer dereference. required: "@)] + required@
                    + seq![
                    CILOpView::Call(spec_usize_to_string()),
                    CILOpView::LdStr(" found: "@),
                ] + found@ + seq![
                    CILOpView::Call(spec_usize_to_string()),
                    CILOpView::Call(spec_string_concat(4)),
                    CILOpView::NewObj(
                        spec_exception_ctor(spec_type_in_runtime("System.Exception"@), true),
                    ),
                    CILOpView::Throw,
                ],
            ),
            AssertMessage::Other => Err(CodegenError::UnsupportedAssertMessage),
        }
    }
}

/// Builds the throw path of a failed assertion, under the configured
/// message policy.
pub fn throw_assert_msg(msg: &AssertMessage, full_messages: bool) -> (r: Result<
    Vec<CILOp>,
    CodegenError,
>)
    ensures
        (match r {
            Ok(v) => spec_throw_assert_msg(*msg, full_messages) == Ok::<
                Seq<CILOpView>,
                CodegenError,
            >(ops_view(v@)),
            Err(e) => spec_throw_assert_msg(*msg, full_messages) == Err::<
                Seq<CILOpView>,
                CodegenError,
            >(e),
        }),
{
    if !full_messages {
        // assertion messages are bypassed: throw a bare null reference
        let mut ops: Vec<CILOp> = Vec::new();
        ops.push(CILOp::LdNull);
        ops.push(CILOp::Throw);
        proof {
            assert(ops_view(ops@) =~= seq![CILOpView::LdNull, CILOpView::Throw]);
        }
        return Ok(ops);
    }
    match msg {
        AssertMessage::BoundsCheck { len, index } => {
            let mut ops: Vec<CILOp> = Vec::new();
            ops.push(CILOp::LdStr("index out of bounds: the len is ".to_owned()));
            let mut len_ops = handle_operand(len);
            ops.append(&mut len_ops);
            ops.push(CILOp::Call(usize_to_string_site()));
            ops.push(CILOp::LdStr(" but the index is".to_owned()));
            let mut index_ops = handle_operand(index);
            ops.append(&mut index_ops);
            ops.push(CILOp::Call(usize_to_string_site()));
            ops.push(CILOp::Call(string_concat_site(4)));
            ops.push(CILOp::NewObj(exception_ctor_site("System.IndexOutOfRangeException", true)));
            ops.push(CILOp::Throw);
            proof {
                assert(ops_view(ops@) =~= spec_throw_assert_msg(*msg, full_messages)->Ok_0);
            }
            Ok(ops)
        },
        AssertMessage::DivisionByZero(_) => {
            let mut ops: Vec<CILOp> = Vec::new();
            ops.push(CILOp::NewObj(exception_ctor_site("System.DivideByZeroException", false)));
            ops.push(CILOp::Throw);
            proof {
                assert(ops_view(ops@) =~= spec_throw_assert_msg(*msg, full_messages)->Ok_0);
            }
            Ok(ops)
        },
        AssertMessage::RemainderByZero(_) => {
            let mut ops: Vec<CILOp> = Vec::new();
            ops.push(CILOp::NewObj(exception_ctor_site("System.DivideByZeroException", false)));
            ops.push(CILOp::Throw);
            proof {
                assert(ops_view(ops@) =~= spec_throw_assert_msg(*msg, full_messages)->Ok_0);
            }
            Ok(ops)
        },
        AssertMessage::Overflow(op, a, b) => {
            let mut ops: Vec<CILOp> = Vec::new();
            ops.push(CILOp::LdStr(overflow_text(op).to_owned()));
            let mut a_ops = handle_operand(a);
            ops.append(&mut a_ops);
            ops.push(CILOp::Call(usize_to_string_site()));
            ops.push(CILOp::LdStr("rhs:".to_owned()));
            let mut b_ops = handle_operand(b);
            ops.append(&mut b_ops);
            ops.push(CILOp::Call(usize_to_string_site()));
            ops.push(CILOp::Call(string_concat_site(4)));
            ops.push(CILOp::NewObj(exception_ctor_site("System.ArithmeticException", true)));
            ops.push(CILOp::Throw);
            proof {
                assert(ops_view(ops@) =~= spec_throw_assert_msg(*msg, full_messages)->Ok_0);
            }
            Ok(ops)
        },
        AssertMessage::OverflowNeg(value) => {
            let mut ops: Vec<CILOp> = Vec::new();
            ops.push(CILOp::LdStr("attempt to neg with overflow value:".to_owned()));
            let mut value_ops = handle_operand(value);
            ops.append(&mut value_ops);
            ops.push(CILOp::Call(usize_to_string_site()));
            ops.push(CILOp::LdStr("rhs:".to_owned()));
            ops.push(CILOp::Call(string_concat_site(3)));
            ops.push(CILOp::NewObj(exception_ctor_site("System.ArithmeticException", true)));
            ops.push(CILOp::Throw);
            proof {
                assert(ops_view(ops@) =~= spec_throw_assert_msg(*msg, full_messages)->Ok_0);
            }
            Ok(ops)
        },
        AssertMessage::MisalignedPointerDereference { required, found } => {
            let mut ops: Vec<CILOp> = Vec::new();
            ops.push(CILOp::LdStr("misaligned pointer dereference. required: ".to_owned()));
            let mut required_ops = handle_operand(required);
            ops.append(&mut required_ops);
            ops.push(CILOp::Call(usize_to_string_site()));
            ops.push(CILOp::LdStr(" found: ".to_owned()));
            let mut found_ops = handle_operand(found);
            ops.append(&mut found_ops);
            ops.push(CILOp::Call(usize_to_string_site()));
            ops.push(CILOp::Call(string_concat_site(4)));
            ops.push(CILOp::NewObj(exception_ctor_site("System.Exception", true)));
            ops.push(CILOp::Throw);
            proof {
                assert(ops_view(ops@) =~= spec_throw_assert_msg(*msg, full_messages)->Ok_0);
            }
            Ok(ops)
        },
        AssertMessage::Other => Err(CodegenError::UnsupportedAssertMessage),
    }
}

} // verus!
