//! Terminator lowering: dispatches each control-flow terminator kind to
//! an instruction sequence and its successor-block linkage.

use vstd::prelude::*;

use crate::call::{call, spec_call};
use crate::cil::{ops_view, CILOp, CILOpView};
use crate::diag::{spec_throw_assert_msg, throw_assert_msg};
use crate::errors::CodegenError;
use crate::mir::{
    handle_operand, CallOperand, IntTy, Lowering, MethodContext, SoundnessGap, SwitchTargets,
    SwitchTy, Terminator, TerminatorKind, UintTy,
};

verus! {

broadcast use crate::cil::lemma_ops_view_add, crate::cil::lemma_ops_view_push;

/// The instructions that load one switch case value as a constant in a
/// signed scrutinee representation.  Values are truncated to the
/// scrutinee's width and sign-extended into the stack slot; 128-bit
/// scrutinees have no constant-load rule.
pub open spec fn spec_load_const_int(value: u128, ty: IntTy) -> Result<
    Seq<CILOpView>,
    CodegenError,
> {
    match ty {
        IntTy::I8 => Ok(seq![CILOpView::LdcI32(value as i8 as i32)]),
        IntTy::I16 => Ok(seq![CILOpView::LdcI32(value as i16 as i32)]),
        IntTy::I32 => Ok(seq![CILOpView::LdcI32(value as i32)]),
        IntTy::I64 => Ok(seq![CILOpView::LdcI64(value as i64)]),
        IntTy::Isize => Ok(seq![CILOpView::LdcI64(value as i64)]),
        IntTy::I128 => Err(CodegenError::UnsupportedSwitchType),
    }
}

/// The instructions that load one switch case value as a constant in an
/// unsigned scrutinee representation.
pub open spec fn spec_load_const_uint(value: u128, ty: UintTy) -> Result<
    Seq<CILOpView>,
    CodegenError,
> {
    match ty {
        UintTy::U8 => Ok(seq![CILOpView::LdcI32(value as u8 as i32)]),
        UintTy::U16 => Ok(seq![CILOpView::LdcI32(value as u16 as i32)]),
        UintTy::U32 => Ok(seq![CILOpView::LdcI32(value as u32 as i32)]),
        UintTy::U64 => Ok(seq![CILOpView::LdcI64(value as u64 as i64)]),
        UintTy::Usize => Ok(seq![CILOpView::LdcI64(value as u64 as i64)]),
        UintTy::U128 => Err(CodegenError::UnsupportedSwitchType),
    }
}

/// Loads one switch case value in a signed representation.
pub fn load_const_int(value: u128, ty: &IntTy) -> (r: Result<Vec<CILOp>, CodegenError>)
    ensures
        (match r {
            Ok(v) => spec_load_const_int(value, *ty) == Ok::<Seq<CILOpView>, CodegenError>(
                ops_view(v@),
            ),
            Err(e) => spec_load_const_int(value, *ty) == Err::<Seq<CILOpView>, CodegenError>(e),
        }),
{
    let mut ops: Vec<CILOp> = Vec::new();
    match ty {
        IntTy::I8 => {
            let v: i8 = #[verifier::truncate] (value as i8);
            ops.push(CILOp::LdcI32(v as i32));
        },
        IntTy::I16 => {
            let v: i16 = #[verifier::truncate] (value as i16);
            ops.push(CILOp::LdcI32(v as i32));
        },
        IntTy::I32 => {
            let v: i32 = #[verifier::truncate] (value as i32);
            ops.push(CILOp::LdcI32(v));
        },
        IntTy::I64 => {
            let v: i64 = #[verifier::truncate] (value as i64);
            ops.push(CILOp::LdcI64(v));
        },
        IntTy::Isize => {
            let v: i64 = #[verifier::truncate] (value as i64);
            ops.push(CILOp::LdcI64(v));
        },
        IntTy::I128 => {
            return Err(CodegenError::UnsupportedSwitchType);
        },
    }
    proof {
        assert(ops_view(ops@) =~= spec_load_const_int(value, *ty)->Ok_0);
    }
    Ok(ops)
}

/// Loads one switch case value in an unsigned representation.
pub fn load_const_uint(value: u128, ty: &UintTy) -> (r: Result<Vec<CILOp>, CodegenError>)
    ensures
        (match r {
            Ok(v) => spec_load_const_uint(value, *ty) == Ok::<Seq<CILOpView>, CodegenError>(
                ops_view(v@),
            ),
            Err(e) => spec_load_const_uint(value, *ty) == Err::<Seq<CILOpView>, CodegenError>(e),
        }),
{
    let mut ops: Vec<CILOp> = Vec::new();
    match ty {
        UintTy::U8 => {
            let v: u8 = #[verifier::truncate] (value as u8);
            ops.push(CILOp::LdcI32(v as i32));
        },
        UintTy::U16 => {
            let v: u16 = #[verifier::truncate] (value as u16);
            ops.push(CILOp::LdcI32(v as i32));
        },
        UintTy::U32 => {
            let v: u32 = #[verifier::truncate] (value as u32);
            ops.push(CILOp::LdcI32(#[verifier::truncate] (v as i32)));
        },
        UintTy::U64 => {
            let v: u64 = #[verifier::truncate] (value as u64);
            ops.push(CILOp::LdcI64(#[verifier::truncate] (v as i64)));
        },
        UintTy::Usize => {
            let v: u64 = #[verifier::truncate] (value as u64);
            ops.push(CILOp::LdcI64(#[verifier::truncate] (v as i64)));
        },
        UintTy::U128 => {
            return Err(CodegenError::UnsupportedSwitchType);
        },
    }
    proof {
        assert(ops_view(ops@) =~= spec_load_const_uint(value, *ty)->Ok_0);
    }
    Ok(ops)
}

/// The constant load for one case value, per scrutinee representation;
/// boolean cases load the case value's low bit as a 32-bit constant.
pub open spec fn spec_case_load(ty: SwitchTy, value: u128) -> Result<Seq<CILOpView>, CodegenError> {
    match ty {
        SwitchTy::Int(t) => spec_load_const_int(value, t),
        SwitchTy::Uint(t) => spec_load_const_uint(value, t),
        SwitchTy::Bool => Ok(seq![CILOpView::LdcI32(value as u8 as i32)]),
        SwitchTy::Other => Err(CodegenError::UnsupportedSwitchType),
    }
}

/// The case comparisons of a switch, in table order: for every case, the
/// scrutinee-load sequence again, the case constant, and a
/// branch-if-equal to the case's target.
pub open spec fn spec_switch_cases(
    ty: SwitchTy,
    discr: Seq<CILOpView>,
    targets: Seq<(u128, u32)>,
) -> Result<Seq<CILOpView>, CodegenError>
    decreases targets.len(),
{
    if targets.len() == 0 {
        Ok(Seq::empty())
    } else {
        match spec_switch_cases(ty, discr, targets.drop_last()) {
            Err(e) => Err(e),
            Ok(done) => match spec_case_load(ty, targets.last().0) {
                Err(e) => Err(e),
                Ok(load) => Ok(done + discr + load + seq![CILOpView::BEq(targets.last().1)]),
            },
        }
    }
}

/// What lowering a switch emits: the case comparisons in table order,
/// then one unconditional goto to the `otherwise` block — an if/else-if
/// chain, not a jump table.
pub open spec fn spec_handle_switch(
    ty: SwitchTy,
    discr: Seq<CILOpView>,
    targets: Seq<(u128, u32)>,
    otherwise: u32,
) -> Result<Seq<CILOpView>, CodegenError> {
    match spec_switch_cases(ty, discr, targets) {
        Err(e) => Err(e),
        Ok(cases) => Ok(cases + seq![CILOpView::GoTo(otherwise)]),
    }
}

/// Lowers a switch over the already-lowered scrutinee sequence `discr`.
pub fn handle_switch(ty: &SwitchTy, discr: Vec<CILOp>, switch: &SwitchTargets) -> (r: Result<
    Vec<CILOp>,
    CodegenError,
>)
    ensures
        (match r {
            Ok(v) => spec_handle_switch(*ty, ops_view(discr@), switch.targets@, switch.otherwise)
                == Ok::<Seq<CILOpView>, CodegenError>(ops_view(v@)),
            Err(e) => spec_handle_switch(*ty, ops_view(discr@), switch.targets@, switch.otherwise)
                == Err::<Seq<CILOpView>, CodegenError>(e),
        }),
{
    let mut ops: Vec<CILOp> = Vec::new();
    proof {
        assert(ops_view(ops@) =~= Seq::<CILOpView>::empty());
    }
    let mut i: usize = 0;
    while i < switch.targets.len()
        invariant
            i <= switch.targets@.len(),
            spec_switch_cases(*ty, ops_view(discr@), switch.targets@.take(i as int)) == Ok::<
                Seq<CILOpView>,
                CodegenError,
            >(ops_view(ops@)),
        decreases switch.targets@.len() - i,
    {
        let (value, target) = switch.targets[i];
        let mut reload = crate::cil::clone_ops(discr.as_slice());
        let mut load = match (match ty {
            SwitchTy::Int(t) => load_const_int(value, t),
            SwitchTy::Uint(t) => load_const_uint(value, t),
            SwitchTy::Bool => {
                let v: u8 = #[verifier::truncate] (value as u8);
                let mut one: Vec<CILOp> = Vec::new();
                one.push(CILOp::LdcI32(v as i32));
                proof {
                    assert(ops_view(one@) =~= seq![CILOpView::LdcI32(value as u8 as i32)]);
                }
                Ok(one)
            },
            SwitchTy::Other => Err(CodegenError::UnsupportedSwitchType),
        }) {
            Ok(l) => l,
            Err(e) => {
                proof {
                    lemma_switch_cases_err(*ty, ops_view(discr@), switch.targets@, i as int, e);
                }
                return Err(e);
            },
        };
        let ghost done = ops_view(ops@);
        let ghost load_view = ops_view(load@);
        ops.append(&mut reload);
        ops.append(&mut load);
        ops.push(CILOp::BEq(target));
        proof {
            assert(switch.targets@.take(i + 1).drop_last() =~= switch.targets@.take(i as int));
            assert(switch.targets@.take(i + 1).last() == switch.targets@[i as int]);
            assert(ops_view(ops@) =~= done + ops_view(discr@) + load_view + seq![
                CILOpView::BEq(target),
            ]);
        }
        i = i + 1;
    }
    let ghost cases = ops_view(ops@);
    ops.push(CILOp::GoTo(switch.otherwise));
    proof {
        assert(switch.targets@.take(switch.targets@.len() as int) =~= switch.targets@);
        assert(ops_view(ops@) =~= cases + seq![CILOpView::GoTo(switch.otherwise)]);
    }
    Ok(ops)
}

/// A case whose constant has no load rule fails the whole switch: the
/// failure of case `i` propagates through every later case.
proof fn lemma_switch_cases_err(
    ty: SwitchTy,
    discr: Seq<CILOpView>,
    targets: Seq<(u128, u32)>,
    i: int,
    e: CodegenError,
)
    requires
        0 <= i < targets.len(),
        spec_switch_cases(ty, discr, targets.take(i)) is Ok,
        spec_case_load(ty, targets[i].0) == Err::<Seq<CILOpView>, CodegenError>(e),
        forall|v: u128| #[trigger] spec_case_load(ty, v) == spec_case_load(ty, targets[i].0),
    ensures
        spec_switch_cases(ty, discr, targets) == Err::<Seq<CILOpView>, CodegenError>(e),
    decreases targets.len(),
{
    if targets.len() - 1 > i {
        lemma_switch_cases_err(ty, discr, targets.drop_last(), i, e);
        assert(targets.drop_last() =~= targets.take(targets.len() - 1));
    } else {
        assert(targets.take(i) =~= targets.drop_last());
        assert(targets.last() == targets[i]);
    }
}

/// What lowering one terminator emits, for every terminator kind, and the
/// soundness gaps tolerated while emitting it.
pub open spec fn spec_handle_terminator(terminator: Terminator, method: MethodContext) -> Result<
    (Seq<CILOpView>, Seq<SoundnessGap>),
    CodegenError,
> {
    match terminator.kind {
        TerminatorKind::Call { func, args, destination, target } => match func {
            CallOperand::NonConst => Err(CodegenError::NonConstCallee),
            CallOperand::Constant(fn_type) => match spec_call(
                fn_type,
                args@,
                destination,
                method.instantiation@,
            ) {
                Err(e) => Err(e),
                Ok(ops) => Ok(
                    (
                        ops + (match target {
                            Some(t) => seq![CILOpView::GoTo(t)],
                            None => Seq::empty(),
                        }),
                        Seq::empty(),
                    ),
                ),
            },
        },
        TerminatorKind::Return => Ok(
            (
                if method.return_type@ == crate::cil::TypeView::Void {
                    seq![CILOpView::Ret]
                } else {
                    seq![CILOpView::LDLoc(0), CILOpView::Ret]
                },
                Seq::empty(),
            ),
        ),
        TerminatorKind::SwitchInt { discr, ty, targets } => match spec_handle_switch(
            ty,
            discr@,
            targets.targets@,
            targets.otherwise,
        ) {
            Err(e) => Err(e),
            Ok(ops) => Ok((ops, Seq::empty())),
        },
        TerminatorKind::Assert { cond, expected, msg, target } => match spec_throw_assert_msg(
            msg,
            method.full_assert_messages,
        ) {
            Err(e) => Err(e),
            Ok(throw) => Ok(
                (
                    cond@ + seq![
                        CILOpView::LdcI32(
                            if expected {
                                1
                            } else {
                                0
                            },
                        ),
                        CILOpView::BEq(target),
                    ] + throw,
                    Seq::empty(),
                ),
            ),
        },
        TerminatorKind::Goto { target } => Ok((seq![CILOpView::GoTo(target)], Seq::empty())),
        TerminatorKind::UnwindResume => Ok(
            (
                seq![CILOpView::Comment("WARNING: stack unwinding is not supported yet!"@)],
                seq![SoundnessGap::StackUnwinding],
            ),
        ),
        TerminatorKind::Drop { target, has_drop_glue } => if !has_drop_glue {
            // a drop with no drop behaviour needs nothing to happen
            Ok((Seq::empty(), Seq::empty()))
        } else {
            Ok(
                (
                    seq![
                        CILOpView::Comment("WARNING: drop is not supported yet!"@),
                        CILOpView::GoTo(target),
                    ],
                    seq![SoundnessGap::SkippedDrop],
                ),
            )
        },
        TerminatorKind::Unreachable => Ok((Seq::empty(), Seq::empty())),
        TerminatorKind::Other => Err(CodegenError::UnsupportedTerminator),
    }
}

/// Lowers one terminator to its instruction sequence and collects the
/// soundness gaps tolerated on the way.
pub fn handle_terminator(terminator: &Terminator, method: &MethodContext) -> (r: Result<
    Lowering,
    CodegenError,
>)
    ensures
        (match r {
            Ok(l) => spec_handle_terminator(*terminator, *method) == Ok::<
                (Seq<CILOpView>, Seq<SoundnessGap>),
                CodegenError,
            >((ops_view(l.ops@), l.gaps@)),
            Err(e) => spec_handle_terminator(*terminator, *method) == Err::<
                (Seq<CILOpView>, Seq<SoundnessGap>),
                CodegenError,
            >(e),
        }),
{
    match &terminator.kind {
        TerminatorKind::Call { func, args, destination, target } => {
            let fn_type = match func {
                CallOperand::Constant(fn_type) => fn_type,
                CallOperand::NonConst => {
                    return Err(CodegenError::NonConstCallee);
                },
            };
            let mut ops = match call(fn_type, args, destination, &method.instantiation) {
                Ok(ops) => ops,
                Err(e) => {
                    return Err(e);
                },
            };
            if let Some(target) = target {
                ops.push(CILOp::GoTo(*target));
                proof {
                    assert(spec_handle_terminator(*terminator, *method)->Ok_0.0 =~= ops_view(
                        ops@,
                    ));
                }
            } else {
                proof {
                    assert(spec_handle_terminator(*terminator, *method)->Ok_0.0 =~= ops_view(
                        ops@,
                    ));
                }
            }
            Ok(Lowering { ops, gaps: Vec::new() })
        },
        TerminatorKind::Return => {
            let mut ops: Vec<CILOp> = Vec::new();
            if !method.return_type.is_void() {
                ops.push(CILOp::LDLoc(0));
            }
            ops.push(CILOp::Ret);
            proof {
                assert(spec_handle_terminator(*terminator, *method)->Ok_0.0 =~= ops_view(ops@));
            }
            Ok(Lowering { ops, gaps: Vec::new() })
        },
        TerminatorKind::SwitchInt { discr, ty, targets } => {
            let discr_ops = handle_operand(discr);
            match handle_switch(ty, discr_ops, targets) {
                Ok(ops) => Ok(Lowering { ops, gaps: Vec::new() }),
                Err(e) => Err(e),
            }
        },
        TerminatorKind::Assert { cond, expected, msg, target } => {
            let mut ops = handle_operand(cond);
            ops.push(CILOp::LdcI32(if *expected {
                1
            } else {
                0
            }));
            ops.push(CILOp::BEq(*target));
            let mut throw = match throw_assert_msg(msg, method.full_assert_messages) {
                Ok(t) => t,
                Err(e) => {
                    return Err(e);
                },
            };
            ops.append(&mut throw);
            proof {
                assert(spec_handle_terminator(*terminator, *method)->Ok_0.0 =~= ops_view(ops@));
            }
            Ok(Lowering { ops, gaps: Vec::new() })
        },
        TerminatorKind::Goto { target } => {
            let mut ops: Vec<CILOp> = Vec::new();
            ops.push(CILOp::GoTo(*target));
            proof {
                assert(spec_handle_terminator(*terminator, *method)->Ok_0.0 =~= ops_view(ops@));
            }
            Ok(Lowering { ops, gaps: Vec::new() })
        },
        TerminatorKind::UnwindResume => {
            let mut ops: Vec<CILOp> = Vec::new();
            ops.push(CILOp::Comment("WARNING: stack unwinding is not supported yet!".to_owned()));
            let mut gaps: Vec<SoundnessGap> = Vec::new();
            gaps.push(SoundnessGap::StackUnwinding);
            proof {
                assert(spec_handle_terminator(*terminator, *method)->Ok_0.0 =~= ops_view(ops@));
                assert(spec_handle_terminator(*terminator, *method)->Ok_0.1 =~= gaps@);
            }
            Ok(Lowering { ops, gaps })
        },
        TerminatorKind::Drop { target, has_drop_glue } => {
            if !*has_drop_glue {
                let ops: Vec<CILOp> = Vec::new();
                proof {
                    assert(spec_handle_terminator(*terminator, *method)->Ok_0.0 =~= ops_view(
                        ops@,
                    ));
                }
                Ok(Lowering { ops, gaps: Vec::new() })
            } else {
                let mut ops: Vec<CILOp> = Vec::new();
                ops.push(CILOp::Comment("WARNING: drop is not supported yet!".to_owned()));
                ops.push(CILOp::GoTo(*target));
                let mut gaps: Vec<SoundnessGap> = Vec::new();
                gaps.push(SoundnessGap::SkippedDrop);
                proof {
                    assert(spec_handle_terminator(*terminator, *method)->Ok_0.0 =~= ops_view(
                        ops@,
                    ));
                    assert(spec_handle_terminator(*terminator, *method)->Ok_0.1 =~= gaps@);
                }
                Ok(Lowering { ops, gaps })
            }
        },
        TerminatorKind::Unreachable => {
            let ops: Vec<CILOp> = Vec::new();
            proof {
                assert(spec_handle_terminator(*terminator, *method)->Ok_0.0 =~= ops_view(ops@));
            }
            Ok(Lowering { ops, gaps: Vec::new() })
        },
        TerminatorKind::Other => Err(CodegenError::UnsupportedTerminator),
    }
}

} // verus!
