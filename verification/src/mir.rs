//! The model of the mid-level IR this engine walks, as the lowering pass
//! sees it after the front end's collaborators have run.
//!
//! Operand lowering, place lowering, instance resolution and signature
//! derivation are collaborators of this engine, not part of it.  Their
//! results therefore arrive inside these types as plain values: an
//! operand carries the instruction sequence that pushes its value, a
//! place the sequence that stores the top of the evaluation stack into
//! it, and a callee type carries the resolved export name and the fully
//! monomorphized signature, or their absence where the collaborator
//! failed.

use vstd::prelude::*;

use crate::cil::{ops_view, CILOp, CILOpView, FnSig, FnSigView, Type, TypeView};
use crate::errors::CodegenError;

verus! {

/// Mathematical value of a [`GenericArg`].
pub enum GenericArgView {
    Str(Seq<char>),
    Flag(bool),
    Ty(TypeView),
    Param(u32),
}

/// One entry of a generic-argument list, as far as the interop
/// conventions read one: a string constant, a boolean constant, a type,
/// or a still-unsubstituted generic parameter of the calling function
/// (identified by its index in the caller's instantiation).
#[derive(Debug, PartialEq, Eq)]
pub enum GenericArg {
    Str(String),
    Flag(bool),
    Ty(Type),
    Param(u32),
}

impl View for GenericArg {
    type V = GenericArgView;

    open spec fn view(&self) -> GenericArgView {
        match self {
            GenericArg::Str(s) => GenericArgView::Str(s@),
            GenericArg::Flag(b) => GenericArgView::Flag(*b),
            GenericArg::Ty(t) => GenericArgView::Ty(t@),
            GenericArg::Param(i) => GenericArgView::Param(*i),
        }
    }
}

impl Clone for GenericArg {
    fn clone(&self) -> (r: Self)
        ensures
            r@ == self@,
    {
        match self {
            GenericArg::Str(s) => GenericArg::Str(s.clone()),
            GenericArg::Flag(b) => GenericArg::Flag(*b),
            GenericArg::Ty(t) => GenericArg::Ty(t.clone()),
            GenericArg::Param(i) => GenericArg::Param(*i),
        }
    }
}

/// Substitutes the caller's own generic instantiation into one
/// generic-argument slot: a parameter with an index inside the
/// instantiation becomes what the caller instantiated it with; everything
/// else is already concrete.
pub open spec fn spec_monomorphize(instantiation: Seq<GenericArg>, arg: GenericArg) -> GenericArg {
    match arg {
        GenericArg::Param(i) => if i < instantiation.len() {
            instantiation[i as int]
        } else {
            arg
        },
        _ => arg,
    }
}

/// Substitutes the caller's instantiation into one generic-argument slot.
pub fn monomorphize(instantiation: &Vec<GenericArg>, arg: &GenericArg) -> (r: GenericArg)
    ensures
        r@ == spec_monomorphize(instantiation@, *arg)@,
{
    match arg {
        GenericArg::Param(i) => {
            if (*i as usize) < instantiation.len() {
                instantiation[*i as usize].clone()
            } else {
                GenericArg::Param(*i)
            }
        },
        _ => arg.clone(),
    }
}

/// The string constant in a generic-argument slot; any other slot kind is
/// a convention violation.
pub fn garg_to_string(arg: &GenericArg) -> (r: Result<String, CodegenError>)
    ensures
        (match arg {
            GenericArg::Str(s) => r matches Ok(v) && v@ == s@,
            _ => r == Err::<String, CodegenError>(CodegenError::WrongSlotKind),
        }),
{
    match arg {
        GenericArg::Str(s) => Ok(s.clone()),
        _ => Err(CodegenError::WrongSlotKind),
    }
}

/// The boolean constant in a generic-argument slot; any other slot kind
/// is a convention violation.
pub fn garg_to_bool(arg: &GenericArg) -> (r: Result<bool, CodegenError>)
    ensures
        (match arg {
            GenericArg::Flag(b) => r == Ok::<bool, CodegenError>(*b),
            _ => r == Err::<bool, CodegenError>(CodegenError::WrongSlotKind),
        }),
{
    match arg {
        GenericArg::Flag(b) => Ok(*b),
        _ => Err(CodegenError::WrongSlotKind),
    }
}

/// The type in a generic-argument slot; any other slot kind is a
/// convention violation.
pub fn garg_to_type(arg: &GenericArg) -> (r: Result<Type, CodegenError>)
    ensures
        (match arg {
            GenericArg::Ty(t) => r matches Ok(v) && v@ == t@,
            _ => r == Err::<Type, CodegenError>(CodegenError::WrongSlotKind),
        }),
{
    match arg {
        GenericArg::Ty(t) => Ok(t.clone()),
        _ => Err(CodegenError::WrongSlotKind),
    }
}

/// An operand of a terminator, carrying what the operand-lowering
/// collaborator produced for it: the instruction sequence that pushes its
/// value onto the evaluation stack.
#[derive(Debug, PartialEq, Eq)]
pub struct Operand {
    pub load_ops: Vec<CILOp>,
}

impl View for Operand {
    type V = Seq<CILOpView>;

    open spec fn view(&self) -> Seq<CILOpView> {
        ops_view(self.load_ops@)
    }
}

/// Produces the instruction sequence that pushes the operand's value.
pub fn handle_operand(operand: &Operand) -> (r: Vec<CILOp>)
    ensures
        ops_view(r@) == operand@,
{
    crate::cil::clone_ops(operand.load_ops.as_slice())
}

/// A memory location a value can be stored into, carrying what the
/// place-lowering collaborator produced for it: the instruction sequence
/// that stores the top of the evaluation stack into the place.
#[derive(Debug, PartialEq, Eq)]
pub struct Place {
    pub store_ops: Vec<CILOp>,
}

impl View for Place {
    type V = Seq<CILOpView>;

    open spec fn view(&self) -> Seq<CILOpView> {
        ops_view(self.store_ops@)
    }
}

/// Appends to `ops` the instruction sequence that stores the produced
/// value into `place`.
pub fn place_set(place: &Place, ops: Vec<CILOp>) -> (r: Vec<CILOp>)
    ensures
        ops_view(r@) == ops_view(ops@) + place@,
{
    let mut r = ops;
    let mut suffix = crate::cil::clone_ops(place.store_ops.as_slice());
    let ghost prefix = r@;
    r.append(&mut suffix);
    proof {
        assert(ops_view(r@) =~= ops_view(prefix) + place@);
    }
    r
}

/// Mathematical value of a [`CalleeTy`].
pub enum CalleeTyView {
    FnDef { name: Option<Seq<char>>, subst: Seq<GenericArgView>, sig: Option<FnSigView> },
    NotFn,
}

/// The type of a called function value, together with what the
/// collaborators derived from it.
#[derive(Debug, PartialEq, Eq)]
pub enum CalleeTy {
    /// A concrete function-definition type: the export name of the single
    /// concrete instance it resolves to (`None` when resolution found no
    /// such instance), the generic-argument list attached to the
    /// definition, and the fully monomorphized signature as seen from the
    /// caller's instantiation (`None` when it could not be derived).
    FnDef { name: Option<String>, subst: Vec<GenericArg>, sig: Option<FnSig> },
    /// Any type that is not a function definition; calling it is fatal.
    NotFn,
}

/// Mathematical value of a sequence of generic arguments.
pub open spec fn gargs_view(s: Seq<GenericArg>) -> Seq<GenericArgView> {
    s.map_values(|g: GenericArg| g@)
}

impl View for CalleeTy {
    type V = CalleeTyView;

    open spec fn view(&self) -> CalleeTyView {
        match self {
            CalleeTy::FnDef { name, subst, sig } => CalleeTyView::FnDef {
                name: match name {
                    Some(n) => Some(n@),
                    None => None,
                },
                subst: gargs_view(subst@),
                sig: match sig {
                    Some(s) => Some(s@),
                    None => None,
                },
            },
            CalleeTy::NotFn => CalleeTyView::NotFn,
        }
    }
}

/// The operand a call terminator calls: only a compile-time-constant
/// function value can be lowered.
#[derive(Debug, PartialEq, Eq)]
pub enum CallOperand {
    /// A compile-time-constant function value of the given type.
    Constant(CalleeTy),
    /// A run-time value; calling through one is fatal here.
    NonConst,
}

/// A signed integer scrutinee type of a switch.
#[derive(Clone, Copy, Debug, PartialEq, Eq, Structural)]
pub enum IntTy {
    I8,
    I16,
    I32,
    I64,
    I128,
    Isize,
}

/// An unsigned integer scrutinee type of a switch.
#[derive(Clone, Copy, Debug, PartialEq, Eq, Structural)]
pub enum UintTy {
    U8,
    U16,
    U32,
    U64,
    U128,
    Usize,
}

/// The type of a switch scrutinee; signed, unsigned and boolean
/// scrutinees have distinct constant-loading rules.
#[derive(Clone, Copy, Debug, PartialEq, Eq, Structural)]
pub enum SwitchTy {
    Int(IntTy),
    Uint(UintTy),
    Bool,
    /// Any other scrutinee type; switching over one is fatal.
    Other,
}

/// The branch table of a switch terminator: one (case value, successor
/// block) pair per case, in the order the front end supplied, and the
/// block taken when no case matches.
#[derive(Debug, PartialEq, Eq)]
pub struct SwitchTargets {
    pub targets: Vec<(u128, u32)>,
    pub otherwise: u32,
}

/// The operator whose overflow an assertion guards.
#[derive(Clone, Copy, Debug, PartialEq, Eq, Structural)]
pub enum BinOp {
    Add,
    Sub,
    Mul,
    Shl,
    Shr,
}

/// Mathematical value of an [`AssertMessage`].
pub enum AssertMessageView {
    BoundsCheck { len: Seq<CILOpView>, index: Seq<CILOpView> },
    DivisionByZero(Seq<CILOpView>),
    RemainderByZero(Seq<CILOpView>),
    Overflow(BinOp, Seq<CILOpView>, Seq<CILOpView>),
    OverflowNeg(Seq<CILOpView>),
    MisalignedPointerDereference { required: Seq<CILOpView>, found: Seq<CILOpView> },
    Other,
}

/// What a failed assertion reports, with the operands the diagnostic
/// message displays.
#[derive(Debug, PartialEq, Eq)]
pub enum AssertMessage {
    /// An index was out of bounds for a length.
    BoundsCheck { len: Operand, index: Operand },
    /// A division had a zero divisor.
    DivisionByZero(Operand),
    /// A remainder had a zero divisor.
    RemainderByZero(Operand),
    /// An arithmetic operation overflowed, with both operands.
    Overflow(BinOp, Operand, Operand),
    /// A negation overflowed.
    OverflowNeg(Operand),
    /// A pointer dereference missed its required alignment.
    MisalignedPointerDereference { required: Operand, found: Operand },
    /// Any other message kind; building its diagnostic is fatal.
    Other,
}

impl View for AssertMessage {
    type V = AssertMessageView;

    open spec fn view(&self) -> AssertMessageView {
        match self {
            AssertMessage::BoundsCheck { len, index } => AssertMessageView::BoundsCheck {
                len: len@,
                index: index@,
            },
            AssertMessage::DivisionByZero(o) => AssertMessageView::DivisionByZero(o@),
            AssertMessage::RemainderByZero(o) => AssertMessageView::RemainderByZero(o@),
            AssertMessage::Overflow(op, a, b) => AssertMessageView::Overflow(*op, a@, b@),
            AssertMessage::OverflowNeg(o) => AssertMessageView::OverflowNeg(o@),
            AssertMessage::MisalignedPointerDereference { required, found } =>
                AssertMessageView::MisalignedPointerDereference {
                required: required@,
                found: found@,
            },
            AssertMessage::Other => AssertMessageView::Other,
        }
    }
}

/// One control-transferring terminator of a basic block.
#[derive(Debug, PartialEq, Eq)]
pub struct Terminator {
    pub kind: TerminatorKind,
}

/// The terminator kinds this engine lowers.  Successor blocks are opaque
/// indices; the engine only emits branch instructions carrying them.
#[allow(inconsistent_fields)]
#[derive(Debug, PartialEq, Eq)]
pub enum TerminatorKind {
    /// Call `func` on `args`, store the result into `destination`, and
    /// continue at `target`; no target means the call diverges.
    Call { func: CallOperand, args: Vec<Operand>, destination: Place, target: Option<u32> },
    /// Return from the function; terminal.
    Return,
    /// Compare the scrutinee against each case value in order and branch
    /// to the matching target, or to `otherwise`.
    SwitchInt { discr: Operand, ty: SwitchTy, targets: SwitchTargets },
    /// Continue at `target` when the condition has the expected value,
    /// else throw.
    Assert { cond: Operand, expected: bool, msg: AssertMessage, target: u32 },
    /// Jump to `target`; terminal for this block.
    Goto { target: u32 },
    /// Resume stack unwinding; unsupported, lowered to a marker comment.
    UnwindResume,
    /// Drop the value at a place, then continue at `target`.
    /// `has_drop_glue` carries what drop-glue resolution showed: whether
    /// the monomorphized type has any drop behaviour at all.
    Drop { target: u32, has_drop_glue: bool },
    /// Never reached at run time; lowered to nothing.
    Unreachable,
    /// Any other terminator kind; lowering it is fatal.
    Other,
}

/// Read-only context of the function being compiled, shared by every
/// terminator of its body.
#[derive(Debug, PartialEq, Eq)]
pub struct MethodContext {
    /// The lowered return type of the function being compiled.
    pub return_type: Type,
    /// The caller's generic instantiation: what each of its generic
    /// parameters stands for.
    pub instantiation: Vec<GenericArg>,
    /// Build the full diagnostic message on assertion failure instead of
    /// throwing a bare null-message exception.
    pub full_assert_messages: bool,
}

/// A known, tolerated soundness gap: the emitted instructions preserve
/// control flow but do not implement the construct.
#[derive(Clone, Copy, Debug, PartialEq, Eq, Structural)]
pub enum SoundnessGap {
    /// Stack unwinding is not supported; a program that unwinds is not
    /// handled correctly.
    StackUnwinding,
    /// A type with live drop glue was dropped without running its
    /// destructor.
    SkippedDrop,
}

/// What lowering one terminator produced: the flat instruction sequence,
/// and the soundness gaps tolerated while producing it.
#[derive(Debug, PartialEq, Eq)]
pub struct Lowering {
    pub ops: Vec<CILOp>,
    pub gaps: Vec<SoundnessGap>,
}

} // verus!
