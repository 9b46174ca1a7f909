//! The shape laws of the lowering engine, stated over its functional
//! specifications and proved once for all inputs.

use vstd::prelude::*;

use crate::call::{
    operands_ops, slot_types, spec_call, spec_call_ctor, spec_interop_target, spec_plain_call,
    spec_route, spec_type_ref,
};
use crate::cil::{CILOpView, CallSiteView, FnSig, TypeView};
use crate::convention::{
    call_virt_marker, ctor_marker, lemma_name_round_trip, spec_encode_name, InteropKind,
};
use crate::errors::CodegenError;
use crate::mir::{
    AssertMessage, CalleeTy, GenericArg, MethodContext, Operand, Place, SwitchTy, Terminator,
    TerminatorKind,
};
use crate::terminator::{
    spec_case_load, spec_handle_switch, spec_handle_terminator, spec_switch_cases,
};
use crate::text::occurs;

verus! {

broadcast use Seq::filter_distributes_over_add;

/// Whether an instruction is a call of any dispatch kind.
pub open spec fn is_call_op(op: CILOpView) -> bool {
    op is Call || op is CallVirt || op is NewObj
}

/// Call instructions, as a filter predicate.
pub open spec fn call_pred() -> spec_fn(CILOpView) -> bool {
    |op: CILOpView| is_call_op(op)
}

/// How many call instructions a sequence holds.
pub open spec fn count_calls(s: Seq<CILOpView>) -> int {
    s.filter(call_pred()).len() as int
}

/// Conditional branches, as a filter predicate.
pub open spec fn beq_pred() -> spec_fn(CILOpView) -> bool {
    |op: CILOpView| op is BEq
}

/// How many conditional branches a sequence holds.
pub open spec fn count_beq(s: Seq<CILOpView>) -> int {
    s.filter(beq_pred()).len() as int
}

/// A one-instruction sequence holds one call iff that instruction is a
/// call, and likewise for branches.
proof fn lemma_count_single(op: CILOpView)
    ensures
        count_calls(seq![op]) == if is_call_op(op) {
            1int
        } else {
            0int
        },
        count_beq(seq![op]) == if op is BEq {
            1int
        } else {
            0int
        },
{
    reveal_with_fuel(Seq::filter, 3);
    assert(seq![op].drop_last() =~= Seq::<CILOpView>::empty());
    assert(Seq::<CILOpView>::empty().filter(call_pred()) =~= Seq::<CILOpView>::empty());
    assert(Seq::<CILOpView>::empty().filter(beq_pred()) =~= Seq::<CILOpView>::empty());
}

/// Arguments lower one after another: the stream of a longer argument
/// list is the stream of the shorter one followed by the new argument's
/// own sequence.
pub proof fn lemma_operands_ops_push(args: Seq<Operand>, arg: Operand)
    ensures
        operands_ops(args.push(arg)) == operands_ops(args) + arg@,
{
    assert(args.push(arg).drop_last() =~= args);
}

/// A plain call emits exactly one call instruction of its own, after the
/// argument sequences and before the destination store: the calls in the
/// whole stream are the calls the collaborators put into those, plus one.
pub proof fn lemma_plain_call_one_call(
    name: Seq<char>,
    sig: FnSig,
    args: Seq<Operand>,
    dest: Place,
)
    ensures
        count_calls(spec_plain_call(name, sig, args, dest)) == count_calls(operands_ops(args)) + 1
            + count_calls(spec_route(sig@.output, dest)),
        spec_plain_call(name, sig, args, dest).take(operands_ops(args).len() as int)
            == operands_ops(args),
        spec_plain_call(name, sig, args, dest)[operands_ops(args).len() as int] is Call,
        sig@.output == TypeView::Void ==> spec_plain_call(name, sig, args, dest).len()
            == operands_ops(args).len() + 1,
        sig@.output != TypeView::Void ==> spec_plain_call(name, sig, args, dest).len()
            == operands_ops(args).len() + 1 + dest@.len(),
{
    let cs = CallSiteView { tpe: None, name, signature: sig@, is_static: true };
    lemma_count_single(CILOpView::Call(cs));
    assert(spec_plain_call(name, sig, args, dest).take(operands_ops(args).len() as int)
        =~= operands_ops(args));
}

/// A callee whose export name matches none of the three convention
/// markers is lowered as a plain call, whose whole stream
/// [`lemma_plain_call_one_call`] pins down.
pub proof fn lemma_plain_dispatch(
    name: String,
    subst: Vec<GenericArg>,
    sig: FnSig,
    args: Seq<Operand>,
    dest: Place,
    instantiation: Seq<GenericArg>,
)
    requires
        crate::convention::spec_decode_name(name@) == Ok::<
            Option<crate::convention::Convention>,
            CodegenError,
        >(None),
    ensures
        spec_call(
            CalleeTy::FnDef { name: Some(name), subst, sig: Some(sig) },
            args,
            dest,
            instantiation,
        ) == Ok::<Seq<CILOpView>, CodegenError>(spec_plain_call(name@, sig, args, dest)),
{
}

/// The constructor convention demands exactly its arities: any other
/// slot or argument count aborts.
pub proof fn lemma_ctor_arity(subst: Seq<GenericArg>, argc: u32, args: Seq<Operand>, dest: Place)
    ensures
        subst.len() != argc + 3 ==> spec_call_ctor(subst, argc, args, dest) == Err::<
            Seq<CILOpView>,
            CodegenError,
        >(CodegenError::WrongGenericArity),
        subst.len() == argc + 3 && args.len() != argc ==> spec_call_ctor(subst, argc, args, dest)
            == Err::<Seq<CILOpView>, CodegenError>(CodegenError::WrongArgCount),
{
}

/// The construction instruction a constructor-convention call emits
/// carries, as its parameter-type list, the constructed type itself
/// followed by the trailing generic-argument slots in order.
pub proof fn lemma_ctor_signature(
    subst: Seq<GenericArg>,
    argc: u32,
    args: Seq<Operand>,
    dest: Place,
)
    requires
        argc > 0,
        spec_call_ctor(subst, argc, args, dest) is Ok,
    ensures
        ({
            let ops = spec_call_ctor(subst, argc, args, dest)->Ok_0;
            let k = operands_ops(args).len() as int;
            let tref = spec_interop_target(subst)->Ok_0;
            &&& 0 <= k < ops.len()
            &&& ops[k] is NewObj
            &&& ops[k]->NewObj_0.tpe == Some(tref)
            &&& ops[k]->NewObj_0.signature.inputs == seq![TypeView::DotnetType(tref)]
                + slot_types(subst.skip(3))
            &&& ops[k]->NewObj_0.signature.inputs.len() == argc + 1
        }),
{
}

/// Case loads are plain constant loads: they hold no conditional branch.
proof fn lemma_case_load_branch_free(ty: SwitchTy, value: u128)
    requires
        spec_case_load(ty, value) is Ok,
    ensures
        count_beq(spec_case_load(ty, value)->Ok_0) == 0,
{
    let load = spec_case_load(ty, value)->Ok_0;
    assert(load.len() == 1 && !(load[0] is BEq));
    lemma_count_single(load[0]);
    assert(load =~= seq![load[0]]);
}

/// A switch over `k` cases emits exactly `k` conditional branches — one
/// per case — and exactly one trailing unconditional goto to the
/// `otherwise` block.
pub proof fn lemma_switch_shape(
    ty: SwitchTy,
    discr: Seq<CILOpView>,
    targets: Seq<(u128, u32)>,
    otherwise: u32,
)
    requires
        count_beq(discr) == 0,
        spec_handle_switch(ty, discr, targets, otherwise) is Ok,
    ensures
        ({
            let ops = spec_handle_switch(ty, discr, targets, otherwise)->Ok_0;
            &&& count_beq(ops) == targets.len()
            &&& ops.len() >= 1
            &&& ops.last() == CILOpView::GoTo(otherwise)
            &&& ops.drop_last() == spec_switch_cases(ty, discr, targets)->Ok_0
        }),
{
    lemma_switch_cases_beq(ty, discr, targets);
    let cases = spec_switch_cases(ty, discr, targets)->Ok_0;
    lemma_count_single(CILOpView::GoTo(otherwise));
    assert((cases + seq![CILOpView::GoTo(otherwise)]).drop_last() =~= cases);
}

proof fn lemma_switch_cases_beq(ty: SwitchTy, discr: Seq<CILOpView>, targets: Seq<(u128, u32)>)
    requires
        count_beq(discr) == 0,
        spec_switch_cases(ty, discr, targets) is Ok,
    ensures
        count_beq(spec_switch_cases(ty, discr, targets)->Ok_0) == targets.len(),
    decreases targets.len(),
{
    reveal(Seq::filter);
    if targets.len() == 0 {
        assert(spec_switch_cases(ty, discr, targets)->Ok_0 =~= Seq::<CILOpView>::empty());
    } else {
        lemma_switch_cases_beq(ty, discr, targets.drop_last());
        lemma_case_load_branch_free(ty, targets.last().0);
        lemma_count_single(CILOpView::BEq(targets.last().1));
    }
}

/// Each case contributes only its own slice of the stream: the cases of
/// a concatenated table are the concatenated case slices, so removing or
/// reordering cases moves whole slices and nothing else.
pub proof fn lemma_switch_cases_concat(
    ty: SwitchTy,
    discr: Seq<CILOpView>,
    t1: Seq<(u128, u32)>,
    t2: Seq<(u128, u32)>,
)
    requires
        spec_switch_cases(ty, discr, t1) is Ok,
    ensures
        spec_switch_cases(ty, discr, t1 + t2) == (match spec_switch_cases(ty, discr, t2) {
            Ok(tail) => Ok::<Seq<CILOpView>, CodegenError>(
                spec_switch_cases(ty, discr, t1)->Ok_0 + tail,
            ),
            Err(e) => Err::<Seq<CILOpView>, CodegenError>(e),
        }),
    decreases t2.len(),
{
    if t2.len() == 0 {
        assert(t1 + t2 =~= t1);
        assert(spec_switch_cases(ty, discr, t1)->Ok_0 + Seq::<CILOpView>::empty()
            =~= spec_switch_cases(ty, discr, t1)->Ok_0);
    } else {
        lemma_switch_cases_concat(ty, discr, t1, t2.drop_last());
        assert((t1 + t2).drop_last() =~= t1 + t2.drop_last());
        assert((t1 + t2).last() == t2.last());
        if spec_switch_cases(ty, discr, t2.drop_last()) is Ok && spec_case_load(
            ty,
            t2.last().0,
        ) is Ok {
            assert(spec_switch_cases(ty, discr, t1)->Ok_0 + (spec_switch_cases(
                ty,
                discr,
                t2.drop_last(),
            )->Ok_0 + discr + spec_case_load(ty, t2.last().0)->Ok_0 + seq![
                CILOpView::BEq(t2.last().1),
            ]) =~= (spec_switch_cases(ty, discr, t1)->Ok_0 + spec_switch_cases(
                ty,
                discr,
                t2.drop_last(),
            )->Ok_0) + discr + spec_case_load(ty, t2.last().0)->Ok_0 + seq![
                CILOpView::BEq(t2.last().1),
            ]);
        }
    }
}

/// Whether the operand sequences a message displays are free of
/// conditional branches.
pub open spec fn msg_operands_branch_free(msg: AssertMessage) -> bool {
    match msg {
        AssertMessage::BoundsCheck { len, index } => count_beq(len@) == 0 && count_beq(index@)
            == 0,
        AssertMessage::DivisionByZero(o) => count_beq(o@) == 0,
        AssertMessage::RemainderByZero(o) => count_beq(o@) == 0,
        AssertMessage::Overflow(_, a, b) => count_beq(a@) == 0 && count_beq(b@) == 0,
        AssertMessage::OverflowNeg(o) => count_beq(o@) == 0,
        AssertMessage::MisalignedPointerDereference { required, found } => count_beq(required@)
            == 0 && count_beq(found@) == 0,
        AssertMessage::Other => true,
    }
}

/// A sequence whose branch count is zero has a branch at no position.
proof fn lemma_beq_count_zero_pointwise(s: Seq<CILOpView>)
    requires
        count_beq(s) == 0,
    ensures
        forall|i: int| 0 <= i < s.len() ==> !((#[trigger] s[i]) is BEq),
{
    assert forall|i: int| 0 <= i < s.len() implies !((#[trigger] s[i]) is BEq) by {
        if s[i] is BEq {
            s.lemma_filter_contains(beq_pred(), i);
        }
    }
}

/// The throw path of a failed assertion emits no conditional branch,
/// whichever message kind and policy built it.
pub proof fn lemma_throw_path_branch_free(msg: AssertMessage, full_messages: bool)
    requires
        msg_operands_branch_free(msg),
        crate::diag::spec_throw_assert_msg(msg, full_messages) is Ok,
    ensures
        count_beq(crate::diag::spec_throw_assert_msg(msg, full_messages)->Ok_0) == 0,
{
    let t = crate::diag::spec_throw_assert_msg(msg, full_messages)->Ok_0;
    if !full_messages {
        lemma_count_single(CILOpView::LdNull);
        lemma_count_single(CILOpView::Throw);
        assert(t =~= seq![CILOpView::LdNull] + seq![CILOpView::Throw]);
    } else {
        match msg {
            AssertMessage::BoundsCheck { len, index } => {
                lemma_beq_count_zero_pointwise(len@);
                lemma_beq_count_zero_pointwise(index@);
                lemma_beq_free_fragments(t);
            },
            AssertMessage::DivisionByZero(o) => {
                lemma_beq_count_zero_pointwise(o@);
                lemma_beq_free_fragments(t);
            },
            AssertMessage::RemainderByZero(o) => {
                lemma_beq_count_zero_pointwise(o@);
                lemma_beq_free_fragments(t);
            },
            AssertMessage::Overflow(_, a, b) => {
                lemma_beq_count_zero_pointwise(a@);
                lemma_beq_count_zero_pointwise(b@);
                lemma_beq_free_fragments(t);
            },
            AssertMessage::OverflowNeg(o) => {
                lemma_beq_count_zero_pointwise(o@);
                lemma_beq_free_fragments(t);
            },
            AssertMessage::MisalignedPointerDereference { required, found } => {
                lemma_beq_count_zero_pointwise(required@);
                lemma_beq_count_zero_pointwise(found@);
                lemma_beq_free_fragments(t);
            },
            AssertMessage::Other => {},
        }
    }
}

/// A sequence with no branch instruction at any position holds zero
/// branches.
proof fn lemma_beq_free_fragments(s: Seq<CILOpView>)
    requires
        forall|i: int| 0 <= i < s.len() ==> !((#[trigger] s[i]) is BEq),
    ensures
        count_beq(s) == 0,
    decreases s.len(),
{
    reveal(Seq::filter);
    if s.len() > 0 {
        lemma_beq_free_fragments(s.drop_last());
    }
}

/// An assert terminator emits exactly one conditional branch — to its
/// continuation block, right after the condition and the expected
/// constant — before any throw-path instruction, whichever message kind
/// is supplied.
pub proof fn lemma_assert_single_branch(
    cond: Operand,
    expected: bool,
    msg: AssertMessage,
    target: u32,
    method: MethodContext,
)
    requires
        count_beq(cond@) == 0,
        msg_operands_branch_free(msg),
        crate::diag::spec_throw_assert_msg(msg, method.full_assert_messages) is Ok,
    ensures
        ({
            let r = spec_handle_terminator(
                Terminator { kind: TerminatorKind::Assert { cond, expected, msg, target } },
                method,
            );
            &&& r is Ok
            &&& count_beq(r->Ok_0.0) == 1
            &&& r->Ok_0.0[cond@.len() as int + 1] == CILOpView::BEq(target)
            &&& r->Ok_0.0.len() > cond@.len() + 1
        }),
{
    lemma_throw_path_branch_free(msg, method.full_assert_messages);
    let expect_op = CILOpView::LdcI32(
        if expected {
            1
        } else {
            0
        },
    );
    lemma_count_single(expect_op);
    lemma_count_single(CILOpView::BEq(target));
    let throw = crate::diag::spec_throw_assert_msg(msg, method.full_assert_messages)->Ok_0;
    assert(cond@ + seq![expect_op, CILOpView::BEq(target)] + throw =~= cond@ + seq![expect_op]
        + seq![CILOpView::BEq(target)] + throw);
    assert((cond@ + seq![expect_op, CILOpView::BEq(target)] + throw)[cond@.len() as int + 1]
        == CILOpView::BEq(target));
}

/// Full round trip of the non-virtual interop convention: a callee whose
/// name was encoded from a marker and count, and whose generic-argument
/// list was built from an (assembly, type name, value-type flag, member,
/// static flag) tuple, lowers to a call instruction carrying exactly that
/// tuple.  The markers tested before the non-virtual one must not occur
/// in the synthetic name: they are tested first and would win.
pub proof fn lemma_interop_round_trip(
    name: String,
    rest: Seq<char>,
    subst: Vec<GenericArg>,
    assembly_name: String,
    class_name: String,
    is_valuetype: bool,
    member: String,
    is_static: bool,
    args: Seq<Operand>,
    dest: Place,
    sig: FnSig,
    instantiation: Seq<GenericArg>,
)
    requires
        0 < args.len() <= u32::MAX,
        name@ == spec_encode_name(InteropKind::Call, args.len() as u32, rest),
        !occurs(name@, ctor_marker()),
        !occurs(name@, call_virt_marker()),
        subst@ == seq![
            GenericArg::Str(assembly_name),
            GenericArg::Str(class_name),
            GenericArg::Flag(is_valuetype),
            GenericArg::Str(member),
            GenericArg::Flag(is_static),
        ],
    ensures
        spec_call(
            CalleeTy::FnDef { name: Some(name), subst, sig: Some(sig) },
            args,
            dest,
            instantiation,
        ) == Ok::<Seq<CILOpView>, CodegenError>(
            operands_ops(args) + seq![
                CILOpView::Call(
                    CallSiteView {
                        tpe: Some(spec_type_ref(assembly_name@, class_name@, is_valuetype)),
                        name: member@,
                        signature: sig@,
                        is_static,
                    },
                ),
            ] + spec_route(sig@.output, dest),
        ),
{
    lemma_name_round_trip(InteropKind::Call, args.len() as u32, rest);
}

} // verus!

