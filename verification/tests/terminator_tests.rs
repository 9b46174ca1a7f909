use cilgen::cil::{CILOp, Type};
use cilgen::errors::CodegenError;
use cilgen::mir::{
    AssertMessage, CallOperand, CalleeTy, IntTy, MethodContext, Operand, Place, SoundnessGap,
    SwitchTargets, SwitchTy, Terminator, TerminatorKind, UintTy,
};
use cilgen::terminator::handle_terminator;

fn ctx(return_type: Type, full_assert_messages: bool) -> MethodContext {
    MethodContext { return_type, instantiation: vec![], full_assert_messages }
}

fn lower(kind: TerminatorKind, method: &MethodContext) -> Result<Vec<CILOp>, CodegenError> {
    handle_terminator(&Terminator { kind }, method).map(|l| l.ops)
}

#[test]
fn return_void_and_nonvoid() {
    let m = ctx(Type::Void, false);
    assert_eq!(lower(TerminatorKind::Return, &m), Ok(vec![CILOp::Ret]));
    let m = ctx(Type::I32, false);
    assert_eq!(
        lower(TerminatorKind::Return, &m),
        Ok(vec![CILOp::LDLoc(0), CILOp::Ret])
    );
}

#[test]
fn goto_emits_single_jump() {
    let m = ctx(Type::Void, false);
    assert_eq!(
        lower(TerminatorKind::Goto { target: 7 }, &m),
        Ok(vec![CILOp::GoTo(7)])
    );
}

#[test]
fn unreachable_emits_nothing() {
    let m = ctx(Type::Void, false);
    assert_eq!(lower(TerminatorKind::Unreachable, &m), Ok(vec![]));
}

#[test]
fn unsupported_terminator_aborts() {
    let m = ctx(Type::Void, false);
    assert_eq!(
        lower(TerminatorKind::Other, &m),
        Err(CodegenError::UnsupportedTerminator)
    );
}

#[test]
fn unwind_resume_keeps_a_marker_and_reports_the_gap() {
    let m = ctx(Type::Void, false);
    let l = handle_terminator(&Terminator { kind: TerminatorKind::UnwindResume }, &m).unwrap();
    assert_eq!(
        l.ops,
        vec![CILOp::Comment(
            "WARNING: stack unwinding is not supported yet!".to_owned()
        )]
    );
    assert_eq!(l.gaps, vec![SoundnessGap::StackUnwinding]);
}

#[test]
fn drop_without_glue_is_inert() {
    let m = ctx(Type::Void, false);
    let l = handle_terminator(
        &Terminator { kind: TerminatorKind::Drop { target: 4, has_drop_glue: false } },
        &m,
    )
    .unwrap();
    assert_eq!(l.ops, vec![]);
    assert_eq!(l.gaps, vec![]);
}

#[test]
fn drop_with_glue_keeps_control_flow_and_reports_the_gap() {
    let m = ctx(Type::Void, false);
    let l = handle_terminator(
        &Terminator { kind: TerminatorKind::Drop { target: 4, has_drop_glue: true } },
        &m,
    )
    .unwrap();
    assert_eq!(
        l.ops,
        vec![
            CILOp::Comment("WARNING: drop is not supported yet!".to_owned()),
            CILOp::GoTo(4),
        ]
    );
    assert_eq!(l.gaps, vec![SoundnessGap::SkippedDrop]);
}

/// The boolean switch scenario: cases `[(0, B1), (1, B2)]`, otherwise
/// `B3`, must emit reload+compare+branch per case and a trailing goto,
/// in that exact order.
#[test]
fn bool_switch_scenario() {
    let m = ctx(Type::Void, false);
    let kind = TerminatorKind::SwitchInt {
        discr: Operand { load_ops: vec![CILOp::LDLoc(0)] },
        ty: SwitchTy::Bool,
        targets: SwitchTargets { targets: vec![(0, 1), (1, 2)], otherwise: 3 },
    };
    assert_eq!(
        lower(kind, &m),
        Ok(vec![
            CILOp::LDLoc(0),
            CILOp::LdcI32(0),
            CILOp::BEq(1),
            CILOp::LDLoc(0),
            CILOp::LdcI32(1),
            CILOp::BEq(2),
            CILOp::GoTo(3),
        ])
    );
}

#[test]
fn signed_and_unsigned_case_loads_differ() {
    let m = ctx(Type::Void, false);
    // 255 as a signed byte is -1, as an unsigned byte 255
    let signed = TerminatorKind::SwitchInt {
        discr: Operand { load_ops: vec![CILOp::LDLoc(1)] },
        ty: SwitchTy::Int(IntTy::I8),
        targets: SwitchTargets { targets: vec![(255, 1)], otherwise: 2 },
    };
    assert_eq!(
        lower(signed, &m),
        Ok(vec![
            CILOp::LDLoc(1),
            CILOp::LdcI32(-1),
            CILOp::BEq(1),
            CILOp::GoTo(2),
        ])
    );
    let unsigned = TerminatorKind::SwitchInt {
        discr: Operand { load_ops: vec![CILOp::LDLoc(1)] },
        ty: SwitchTy::Uint(UintTy::U8),
        targets: SwitchTargets { targets: vec![(255, 1)], otherwise: 2 },
    };
    assert_eq!(
        lower(unsigned, &m),
        Ok(vec![
            CILOp::LDLoc(1),
            CILOp::LdcI32(255),
            CILOp::BEq(1),
            CILOp::GoTo(2),
        ])
    );
    let wide = TerminatorKind::SwitchInt {
        discr: Operand { load_ops: vec![CILOp::LDLoc(1)] },
        ty: SwitchTy::Int(IntTy::I64),
        targets: SwitchTargets { targets: vec![(9, 1)], otherwise: 2 },
    };
    assert_eq!(
        lower(wide, &m),
        Ok(vec![
            CILOp::LDLoc(1),
            CILOp::LdcI64(9),
            CILOp::BEq(1),
            CILOp::GoTo(2),
        ])
    );
}

#[test]
fn switch_unsupported_scrutinee() {
    let m = ctx(Type::Void, false);
    let bad = TerminatorKind::SwitchInt {
        discr: Operand { load_ops: vec![CILOp::LDLoc(1)] },
        ty: SwitchTy::Int(IntTy::I128),
        targets: SwitchTargets { targets: vec![(9, 1)], otherwise: 2 },
    };
    assert_eq!(lower(bad, &m), Err(CodegenError::UnsupportedSwitchType));
    // with no cases nothing consults the scrutinee type: only the goto
    let empty = TerminatorKind::SwitchInt {
        discr: Operand { load_ops: vec![CILOp::LDLoc(1)] },
        ty: SwitchTy::Other,
        targets: SwitchTargets { targets: vec![], otherwise: 2 },
    };
    assert_eq!(lower(empty, &m), Ok(vec![CILOp::GoTo(2)]));
}

/// An assert under the minimal policy: the condition, the expected
/// constant, one branch to the continuation, then the bare throw.
#[test]
fn assert_minimal_policy() {
    let m = ctx(Type::Void, false);
    let kind = TerminatorKind::Assert {
        cond: Operand { load_ops: vec![CILOp::LDLoc(1)] },
        expected: true,
        msg: AssertMessage::DivisionByZero(Operand { load_ops: vec![] }),
        target: 5,
    };
    assert_eq!(
        lower(kind, &m),
        Ok(vec![
            CILOp::LDLoc(1),
            CILOp::LdcI32(1),
            CILOp::BEq(5),
            CILOp::LdNull,
            CILOp::Throw,
        ])
    );
}

/// Under the full policy a bounds-check failure builds its message and
/// throws an index-out-of-range exception; the branch to the
/// continuation still comes first.
#[test]
fn assert_full_policy_bounds_check() {
    let m = ctx(Type::Void, true);
    let kind = TerminatorKind::Assert {
        cond: Operand { load_ops: vec![CILOp::LDLoc(1)] },
        expected: false,
        msg: AssertMessage::BoundsCheck {
            len: Operand { load_ops: vec![CILOp::LDLoc(2)] },
            index: Operand { load_ops: vec![CILOp::LDLoc(3)] },
        },
        target: 6,
    };
    let ops = lower(kind, &m).unwrap();
    assert_eq!(ops[0], CILOp::LDLoc(1));
    assert_eq!(ops[1], CILOp::LdcI32(0));
    assert_eq!(ops[2], CILOp::BEq(6));
    assert_eq!(
        ops[3],
        CILOp::LdStr("index out of bounds: the len is ".to_owned())
    );
    assert_eq!(ops[4], CILOp::LDLoc(2));
    assert_eq!(ops[6], CILOp::LdStr(" but the index is".to_owned()));
    assert_eq!(ops[7], CILOp::LDLoc(3));
    assert_eq!(*ops.last().unwrap(), CILOp::Throw);
    // exactly one conditional branch in the whole stream
    let branches = ops
        .iter()
        .filter(|o| matches!(o, CILOp::BEq(_)))
        .count();
    assert_eq!(branches, 1);
}

#[test]
fn assert_full_policy_unsupported_message() {
    let failing = TerminatorKind::Assert {
        cond: Operand { load_ops: vec![CILOp::LDLoc(1)] },
        expected: true,
        msg: AssertMessage::Other,
        target: 5,
    };
    assert_eq!(
        lower(failing, &ctx(Type::Void, true)),
        Err(CodegenError::UnsupportedAssertMessage)
    );
    // the minimal policy throws without building the message
    let tolerated = TerminatorKind::Assert {
        cond: Operand { load_ops: vec![CILOp::LDLoc(1)] },
        expected: true,
        msg: AssertMessage::Other,
        target: 5,
    };
    assert_eq!(
        lower(tolerated, &ctx(Type::Void, false)),
        Ok(vec![
            CILOp::LDLoc(1),
            CILOp::LdcI32(1),
            CILOp::BEq(5),
            CILOp::LdNull,
            CILOp::Throw,
        ])
    );
}

/// A call terminator appends a goto to its continuation block; a call
/// with no continuation diverges and gets none.
#[test]
fn call_terminator_continuation() {
    let m = ctx(Type::Void, false);
    let sig = cilgen::cil::FnSig { inputs: vec![], output: Type::Void };
    let mk = |target: Option<u32>| TerminatorKind::Call {
        func: CallOperand::Constant(CalleeTy::FnDef {
            name: Some("callee".to_owned()),
            subst: vec![],
            sig: Some(sig.clone()),
        }),
        args: vec![],
        destination: Place { store_ops: vec![CILOp::LDLoc(8)] },
        target,
    };
    let with_target = lower(mk(Some(9)), &m).unwrap();
    assert_eq!(*with_target.last().unwrap(), CILOp::GoTo(9));
    let diverging = lower(mk(None), &m).unwrap();
    assert!(!matches!(diverging.last().unwrap(), CILOp::GoTo(_)));
}

#[test]
fn call_terminator_nonconst_callee_aborts() {
    let m = ctx(Type::Void, false);
    let kind = TerminatorKind::Call {
        func: CallOperand::NonConst,
        args: vec![],
        destination: Place { store_ops: vec![] },
        target: Some(1),
    };
    assert_eq!(lower(kind, &m), Err(CodegenError::NonConstCallee));
}
