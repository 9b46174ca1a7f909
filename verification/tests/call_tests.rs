use cilgen::call::{call, call_ctor, call_managed, callvirt_managed};
use cilgen::cil::{CILOp, CallSite, DotnetTypeRef, FnSig, Type};
use cilgen::errors::CodegenError;
use cilgen::mir::{CalleeTy, GenericArg, Operand, Place};

fn op(load_ops: Vec<CILOp>) -> Operand {
    Operand { load_ops }
}

fn dest(store_ops: Vec<CILOp>) -> Place {
    Place { store_ops }
}

fn widget_ref() -> DotnetTypeRef {
    let mut t = DotnetTypeRef::new(Some("MyAsm"), "Widget");
    t.set_valuetype(false);
    t
}

/// The scenario of a virtual interop call: callee
/// `__monomorphize_call_virt_2_Foo`, slots
/// `["MyAsm", "Widget", false, "Frob", false]`, two integer arguments.
#[test]
fn virtual_interop_call_scenario() {
    let subst = vec![
        GenericArg::Str("MyAsm".to_owned()),
        GenericArg::Str("Widget".to_owned()),
        GenericArg::Flag(false),
        GenericArg::Str("Frob".to_owned()),
        GenericArg::Flag(false),
    ];
    let args = vec![op(vec![CILOp::LdcI32(11)]), op(vec![CILOp::LdcI32(22)])];
    let destination = dest(vec![CILOp::LDLoc(9)]);
    let sig = FnSig { inputs: vec![Type::I32, Type::I32], output: Type::I32 };
    let fn_type = CalleeTy::FnDef {
        name: Some("__monomorphize_call_virt_2_Foo".to_owned()),
        subst,
        sig: Some(sig.clone()),
    };
    let ops = call(&fn_type, &args, &destination, &Vec::new()).unwrap();
    let expected_site = CallSite::new(Some(widget_ref()), "Frob".to_owned(), sig, false);
    assert_eq!(
        ops,
        vec![
            CILOp::LdcI32(11),
            CILOp::LdcI32(22),
            CILOp::CallVirt(expected_site),
            CILOp::LDLoc(9),
        ]
    );
}

/// The same call with a void wrapper signature routes nothing to the
/// destination.
#[test]
fn virtual_interop_call_void_scenario() {
    let subst = vec![
        GenericArg::Str("MyAsm".to_owned()),
        GenericArg::Str("Widget".to_owned()),
        GenericArg::Flag(false),
        GenericArg::Str("Frob".to_owned()),
        GenericArg::Flag(false),
    ];
    let args = vec![op(vec![CILOp::LdcI32(11)]), op(vec![CILOp::LdcI32(22)])];
    let destination = dest(vec![CILOp::LDLoc(9)]);
    let sig = FnSig { inputs: vec![Type::I32, Type::I32], output: Type::Void };
    let ops = callvirt_managed(&subst, &args, &destination, &sig, &Vec::new(), 2).unwrap();
    let expected_site = CallSite::new(Some(widget_ref()), "Frob".to_owned(), sig, false);
    assert_eq!(
        ops,
        vec![CILOp::LdcI32(11), CILOp::LdcI32(22), CILOp::CallVirt(expected_site)]
    );
}

/// The virtual convention substitutes the member-name slot through the
/// caller's instantiation before reading it.
#[test]
fn virtual_member_name_is_monomorphized() {
    let subst = vec![
        GenericArg::Str("MyAsm".to_owned()),
        GenericArg::Str("Widget".to_owned()),
        GenericArg::Flag(false),
        GenericArg::Param(0),
        GenericArg::Flag(true),
    ];
    let instantiation = vec![GenericArg::Str("Frob".to_owned())];
    let args = vec![op(vec![CILOp::LdcI32(1)])];
    let destination = dest(vec![CILOp::LDLoc(2)]);
    let sig = FnSig { inputs: vec![Type::I32], output: Type::Void };
    let ops = callvirt_managed(&subst, &args, &destination, &sig, &instantiation, 1).unwrap();
    let expected_site = CallSite::new(Some(widget_ref()), "Frob".to_owned(), sig.clone(), true);
    assert_eq!(ops, vec![CILOp::LdcI32(1), CILOp::CallVirt(expected_site)]);
    // the non-virtual convention reads the slot as it stands, so an
    // unsubstituted parameter there is a convention violation
    let r = call_managed(&subst, &args, &destination, &sig, &instantiation, 1);
    assert_eq!(r, Err(CodegenError::WrongSlotKind));
}

/// A zero-argument interop call goes out directly with an empty void
/// signature, but the wrapper's declared return type still decides the
/// destination routing.
#[test]
fn interop_call_zero_args() {
    let subst = vec![
        GenericArg::Str("MyAsm".to_owned()),
        GenericArg::Str("Widget".to_owned()),
        GenericArg::Flag(false),
        GenericArg::Str("Now".to_owned()),
    ];
    let args: Vec<Operand> = Vec::new();
    let destination = dest(vec![CILOp::LDLoc(3)]);
    let wrapper_sig = FnSig { inputs: vec![], output: Type::I64 };
    let ops = call_managed(&subst, &args, &destination, &wrapper_sig, &Vec::new(), 0).unwrap();
    let empty_sig = FnSig { inputs: vec![], output: Type::Void };
    let expected_site = CallSite::new(Some(widget_ref()), "Now".to_owned(), empty_sig, true);
    assert_eq!(ops, vec![CILOp::Call(expected_site), CILOp::LDLoc(3)]);
}

/// A constructor call with no arguments emits one object construction,
/// always routed to the destination; an empty assembly slot encodes a
/// type of the local assembly.
#[test]
fn ctor_zero_args_local_valuetype() {
    let subst = vec![
        GenericArg::Str("".to_owned()),
        GenericArg::Str("Local".to_owned()),
        GenericArg::Flag(true),
    ];
    let args: Vec<Operand> = Vec::new();
    let destination = dest(vec![CILOp::LDLoc(4)]);
    let ops = call_ctor(&subst, &args, &destination, 0).unwrap();
    let mut tpe = DotnetTypeRef::new(None, "Local");
    tpe.set_valuetype(true);
    let sig = FnSig { inputs: vec![Type::DotnetType(tpe.clone())], output: Type::Void };
    let expected_site = CallSite::new(Some(tpe), ".ctor".to_owned(), sig, false);
    assert_eq!(ops, vec![CILOp::NewObj(expected_site), CILOp::LDLoc(4)]);
}

/// A constructor call's emitted signature is the constructed type
/// followed by the trailing type slots, in order.
#[test]
fn ctor_two_args_signature() {
    let subst = vec![
        GenericArg::Str("MyAsm".to_owned()),
        GenericArg::Str("Widget".to_owned()),
        GenericArg::Flag(false),
        GenericArg::Ty(Type::I32),
        GenericArg::Ty(Type::U64),
    ];
    let args = vec![op(vec![CILOp::LdcI32(5)]), op(vec![CILOp::LdcI64(6)])];
    let destination = dest(vec![CILOp::LDLoc(1)]);
    let ops = call_ctor(&subst, &args, &destination, 2).unwrap();
    let tpe = widget_ref();
    let sig = FnSig {
        inputs: vec![Type::DotnetType(tpe.clone()), Type::I32, Type::U64],
        output: Type::Void,
    };
    let expected_site = CallSite::new(Some(tpe), ".ctor".to_owned(), sig, false);
    assert_eq!(
        ops,
        vec![
            CILOp::LdcI32(5),
            CILOp::LdcI64(6),
            CILOp::NewObj(expected_site),
            CILOp::LDLoc(1),
        ]
    );
}

/// The constructor convention demands exactly `argc + 3` slots and
/// exactly `argc` actual arguments.
#[test]
fn ctor_arity_violations_abort() {
    let short = vec![
        GenericArg::Str("MyAsm".to_owned()),
        GenericArg::Str("Widget".to_owned()),
        GenericArg::Flag(false),
        GenericArg::Ty(Type::I32),
    ];
    let args = vec![op(vec![CILOp::LdcI32(5)]), op(vec![CILOp::LdcI64(6)])];
    let destination = dest(vec![]);
    assert_eq!(
        call_ctor(&short, &args, &destination, 2),
        Err(CodegenError::WrongGenericArity)
    );
    let right = vec![
        GenericArg::Str("MyAsm".to_owned()),
        GenericArg::Str("Widget".to_owned()),
        GenericArg::Flag(false),
        GenericArg::Ty(Type::I32),
        GenericArg::Ty(Type::U64),
    ];
    let one_arg = vec![op(vec![CILOp::LdcI32(5)])];
    assert_eq!(
        call_ctor(&right, &one_arg, &destination, 2),
        Err(CodegenError::WrongArgCount)
    );
    let bad_slot = vec![
        GenericArg::Str("MyAsm".to_owned()),
        GenericArg::Str("Widget".to_owned()),
        GenericArg::Flag(false),
        GenericArg::Ty(Type::I32),
        GenericArg::Flag(true),
    ];
    assert_eq!(
        call_ctor(&bad_slot, &args, &destination, 2),
        Err(CodegenError::WrongSlotKind)
    );
}

/// A plain call emits the arguments, one direct static call, and the
/// destination store exactly when the return type is not void.
#[test]
fn plain_call_scenario() {
    let args = vec![op(vec![CILOp::LdcI32(1)]), op(vec![CILOp::LdcI32(2)])];
    let destination = dest(vec![CILOp::LDLoc(7)]);
    let sig = FnSig { inputs: vec![Type::I32, Type::I32], output: Type::I32 };
    let fn_type = CalleeTy::FnDef {
        name: Some("my_plain_function".to_owned()),
        subst: vec![],
        sig: Some(sig.clone()),
    };
    let ops = call(&fn_type, &args, &destination, &Vec::new()).unwrap();
    let expected_site = CallSite::new(None, "my_plain_function".to_owned(), sig, true);
    assert_eq!(
        ops,
        vec![
            CILOp::LdcI32(1),
            CILOp::LdcI32(2),
            CILOp::Call(expected_site),
            CILOp::LDLoc(7),
        ]
    );

    let void_sig = FnSig { inputs: vec![Type::I32, Type::I32], output: Type::Void };
    let void_fn = CalleeTy::FnDef {
        name: Some("my_plain_function".to_owned()),
        subst: vec![],
        sig: Some(void_sig.clone()),
    };
    let ops = call(&void_fn, &args, &destination, &Vec::new()).unwrap();
    let expected_site = CallSite::new(None, "my_plain_function".to_owned(), void_sig, true);
    assert_eq!(
        ops,
        vec![CILOp::LdcI32(1), CILOp::LdcI32(2), CILOp::Call(expected_site)]
    );
}

/// The resolution steps fail in their declared order.
#[test]
fn call_resolution_failures() {
    let args: Vec<Operand> = Vec::new();
    let destination = dest(vec![]);
    assert_eq!(
        call(&CalleeTy::NotFn, &args, &destination, &Vec::new()),
        Err(CodegenError::NotAFunction)
    );
    let unresolved = CalleeTy::FnDef { name: None, subst: vec![], sig: None };
    assert_eq!(
        call(&unresolved, &args, &destination, &Vec::new()),
        Err(CodegenError::UnresolvedInstance)
    );
    let no_sig = CalleeTy::FnDef { name: Some("f".to_owned()), subst: vec![], sig: None };
    assert_eq!(
        call(&no_sig, &args, &destination, &Vec::new()),
        Err(CodegenError::MissingSignature)
    );
}
