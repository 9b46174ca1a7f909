//! The call-resolution engine: given a callee function type and the
//! generic context of the calling function, decides the calling
//! convention — plain call, foreign-object constructor, virtual or
//! non-virtual interop call — and emits the call.
//!
//! The generic-argument slot layout is a positional contract with the
//! front end.  Constructor convention with count `n`: exactly `n + 3`
//! slots, `[0]` the target assembly name (empty means local), `[1]` the
//! target type name, `[2]` the value-type flag, `[3..]` one type per
//! constructor parameter.  Interop call conventions: `[0..3]` as above,
//! `[3]` the callee member name (for the virtual convention substituted
//! through the caller's own instantiation first), and, only when the
//! count is positive, `[4]` the static/instance flag.

use vstd::prelude::*;

use crate::cil::{
    lemma_ops_view_add, lemma_ops_view_push, ops_view, types_view, CILOp, CILOpView, CallSite,
    CallSiteView, DotnetTypeRef, DotnetTypeRefView, FnSig, FnSigView, Type, TypeView,
};
use crate::convention::{decode_fn_name, spec_decode_name, InteropKind};
use crate::errors::CodegenError;
use crate::mir::{
    garg_to_bool, garg_to_string, garg_to_type, handle_operand, monomorphize, place_set,
    spec_monomorphize, CalleeTy, GenericArg, Operand, Place,
};

verus! {

broadcast use lemma_ops_view_add, lemma_ops_view_push;

/// The instruction sequences of the actual arguments, concatenated left
/// to right.
pub open spec fn operands_ops(args: Seq<Operand>) -> Seq<CILOpView>
    decreases args.len(),
{
    if args.len() == 0 {
        Seq::empty()
    } else {
        operands_ops(args.drop_last()) + args.last()@
    }
}

/// Lowers the actual arguments in left-to-right order.
pub fn lower_call_args(args: &Vec<Operand>) -> (r: Vec<CILOp>)
    ensures
        ops_view(r@) == operands_ops(args@),
{
    let mut r: Vec<CILOp> = Vec::new();
    proof {
        assert(ops_view(r@) =~= operands_ops(args@.take(0)));
    }
    let mut i: usize = 0;
    while i < args.len()
        invariant
            i <= args@.len(),
            ops_view(r@) == operands_ops(args@.take(i as int)),
        decreases args@.len() - i,
    {
        let mut ops = handle_operand(&args[i]);
        let ghost prev = r@;
        r.append(&mut ops);
        proof {
            assert(args@.take(i + 1).drop_last() =~= args@.take(i as int));
            assert(args@.take(i + 1).last() == args@[i as int]);
        }
        i = i + 1;
    }
    proof {
        assert(args@.take(args@.len() as int) =~= args@);
    }
    r
}

/// The destination-store sequence a call is routed through exactly when
/// its return type is not void.
pub open spec fn spec_route(output: TypeView, dest: Place) -> Seq<CILOpView> {
    if output == TypeView::Void {
        Seq::empty()
    } else {
        dest@
    }
}

/// The type reference the first three generic-argument slots describe; an
/// empty assembly name encodes a type of the local assembly.
pub open spec fn spec_type_ref(assembly: Seq<char>, class: Seq<char>, is_valuetype: bool)
    -> DotnetTypeRefView {
    DotnetTypeRefView {
        assembly: if assembly.len() == 0 {
            None
        } else {
            Some(assembly)
        },
        name: class,
        is_valuetype,
    }
}

/// The target type described by slots `[0..3]`, or the slot-kind
/// violation that prevents reading it.
pub open spec fn spec_interop_target(subst: Seq<GenericArg>) -> Result<
    DotnetTypeRefView,
    CodegenError,
>
    recommends
        subst.len() >= 3,
{
    match (subst[0], subst[1], subst[2]) {
        (GenericArg::Str(assembly), GenericArg::Str(class), GenericArg::Flag(vt)) => Ok(
            spec_type_ref(assembly@, class@, vt),
        ),
        _ => Err(CodegenError::WrongSlotKind),
    }
}

/// Builds the target type reference from slots `[0..3]`.
fn interop_target(subst: &Vec<GenericArg>) -> (r: Result<DotnetTypeRef, CodegenError>)
    requires
        subst@.len() >= 3,
    ensures
        (match r {
            Ok(t) => spec_interop_target(subst@) == Ok::<DotnetTypeRefView, CodegenError>(t@),
            Err(e) => spec_interop_target(subst@) == Err::<DotnetTypeRefView, CodegenError>(e),
        }),
{
    let assembly = match garg_to_string(&subst[0]) {
        Ok(s) => s,
        Err(e) => {
            return Err(e);
        },
    };
    let class_name = match garg_to_string(&subst[1]) {
        Ok(s) => s,
        Err(e) => {
            return Err(e);
        },
    };
    let is_valuetype = match garg_to_bool(&subst[2]) {
        Ok(b) => b,
        Err(e) => {
            return Err(e);
        },
    };
    // an empty assembly name encodes "no assembly": the local one
    let assembly = if assembly.as_str().is_empty() {
        None
    } else {
        Some(assembly)
    };
    let mut tpe = DotnetTypeRef::new(
        match &assembly {
            Some(a) => Some(a.as_str()),
            None => None,
        },
        class_name.as_str(),
    );
    tpe.set_valuetype(is_valuetype);
    Ok(tpe)
}

/// The constructor-parameter types in the trailing slots, read as types;
/// a slot of any other kind is a convention violation.
pub open spec fn all_type_slots(s: Seq<GenericArg>) -> bool {
    forall|i: int| 0 <= i < s.len() ==> #[trigger] s[i] is Ty
}

/// The types in a sequence of type slots.
pub open spec fn slot_types(s: Seq<GenericArg>) -> Seq<TypeView> {
    s.map_values(
        |g: GenericArg|
            match g {
                GenericArg::Ty(t) => t@,
                _ => TypeView::Void,
            },
    )
}

/// What lowering a constructor-convention call emits: for a zero count a
/// bare object-construction instruction routed to the destination, else
/// the arguments left to right, an object-construction instruction whose
/// signature is the constructed type followed by the declared parameter
/// types, and the destination store.
pub open spec fn spec_call_ctor(
    subst: Seq<GenericArg>,
    argc: u32,
    args: Seq<Operand>,
    dest: Place,
) -> Result<Seq<CILOpView>, CodegenError> {
    if subst.len() != argc + 3 {
        Err(CodegenError::WrongGenericArity)
    } else if args.len() != argc {
        Err(CodegenError::WrongArgCount)
    } else {
        match spec_interop_target(subst) {
            Err(e) => Err(e),
            Ok(tpe) => {
                if argc == 0 {
                    let cs = CallSiteView {
                        tpe: Some(tpe),
                        name: ".ctor"@,
                        signature: FnSigView {
                            inputs: seq![TypeView::DotnetType(tpe)],
                            output: TypeView::Void,
                        },
                        is_static: false,
                    };
                    Ok(seq![CILOpView::NewObj(cs)] + dest@)
                } else if !all_type_slots(subst.skip(3)) {
                    Err(CodegenError::WrongSlotKind)
                } else {
                    let inputs = seq![TypeView::DotnetType(tpe)] + slot_types(subst.skip(3));
                    let cs = CallSiteView {
                        tpe: Some(tpe),
                        name: ".ctor"@,
                        signature: FnSigView { inputs, output: TypeView::Void },
                        is_static: false,
                    };
                    Ok(operands_ops(args) + seq![CILOpView::NewObj(cs)] + dest@)
                }
            },
        }
    }
}

/// Creates a new managed object of the type described by the slots, and
/// routes a reference to it into the destination.
pub fn call_ctor(
    subst_ref: &Vec<GenericArg>,
    args: &Vec<Operand>,
    destination: &Place,
    argc: u32,
) -> (r: Result<Vec<CILOp>, CodegenError>)
    ensures
        (match r {
            Ok(v) => spec_call_ctor(subst_ref@, argc, args@, *destination) == Ok::<
                Seq<CILOpView>,
                CodegenError,
            >(ops_view(v@)),
            Err(e) => spec_call_ctor(subst_ref@, argc, args@, *destination) == Err::<
                Seq<CILOpView>,
                CodegenError,
            >(e),
        }),
{
    // the convention demands exactly one type slot per constructor
    // parameter after the three target-type slots
    if subst_ref.len() as u64 != argc as u64 + 3 {
        return Err(CodegenError::WrongGenericArity);
    }
    if args.len() as u64 != argc as u64 {
        return Err(CodegenError::WrongArgCount);
    }
    let tpe = match interop_target(subst_ref) {
        Ok(t) => t,
        Err(e) => {
            return Err(e);
        },
    };
    if argc == 0 {
        let mut inputs: Vec<Type> = Vec::new();
        inputs.push(Type::from(tpe.clone()));
        proof {
            assert(types_view(inputs@) =~= seq![TypeView::DotnetType(tpe@)]);
        }
        let sig = FnSig { inputs, output: Type::Void };
        let cs = CallSite::new(Some(tpe), ".ctor".to_owned(), sig, false);
        let mut call: Vec<CILOp> = Vec::new();
        call.push(CILOp::NewObj(cs));
        let r = place_set(destination, call);
        proof {
            assert(ops_view(r@) =~= spec_call_ctor(subst_ref@, argc, args@, *destination)->Ok_0);
        }
        Ok(r)
    } else {
        let mut inputs: Vec<Type> = Vec::new();
        inputs.push(Type::from(tpe.clone()));
        proof {
            assert(types_view(inputs@) =~= seq![TypeView::DotnetType(tpe@)] + slot_types(
                subst_ref@.subrange(3, 3),
            ));
        }
        let mut i: usize = 3;
        while i < subst_ref.len()
            invariant
                3 <= i <= subst_ref@.len(),
                subst_ref@.len() == argc + 3,
                args@.len() == argc,
                argc > 0,
                spec_interop_target(subst_ref@) == Ok::<DotnetTypeRefView, CodegenError>(tpe@),
                all_type_slots(subst_ref@.subrange(3, i as int)),
                types_view(inputs@) == seq![TypeView::DotnetType(tpe@)] + slot_types(
                    subst_ref@.subrange(3, i as int),
                ),
            decreases subst_ref@.len() - i,
        {
            let t = match garg_to_type(&subst_ref[i]) {
                Ok(t) => t,
                Err(e) => {
                    proof {
                        assert(subst_ref@.skip(3)[i - 3] == subst_ref@[i as int]);
                        assert(!all_type_slots(subst_ref@.skip(3)));
                    }
                    return Err(e);
                },
            };
            let ghost prev_inputs = inputs@;
            inputs.push(t);
            proof {
                assert(subst_ref@.subrange(3, i + 1).drop_last() =~= subst_ref@.subrange(
                    3,
                    i as int,
                ));
                assert(subst_ref@.subrange(3, i + 1).last() == subst_ref@[i as int]);
                assert(all_type_slots(subst_ref@.subrange(3, i + 1)));
                assert(subst_ref@[i as int] is Ty);
                assert(types_view(inputs@) =~= types_view(prev_inputs).push(t@));
                assert(slot_types(subst_ref@.subrange(3, i + 1)) =~= slot_types(
                    subst_ref@.subrange(3, i as int),
                ).push(t@));
                assert(types_view(inputs@) =~= seq![TypeView::DotnetType(tpe@)] + slot_types(
                    subst_ref@.subrange(3, i + 1),
                ));
            }
            i = i + 1;
        }
        proof {
            assert(subst_ref@.subrange(3, subst_ref@.len() as int) =~= subst_ref@.skip(3));
        }
        let sig = FnSig { inputs, output: Type::Void };
        let cs = CallSite::new(Some(tpe), ".ctor".to_owned(), sig, false);
        let mut call = lower_call_args(args);
        call.push(CILOp::NewObj(cs));
        let r = place_set(destination, call);
        proof {
            assert(ops_view(r@) =~= spec_call_ctor(subst_ref@, argc, args@, *destination)->Ok_0);
        }
        Ok(r)
    }
}

/// What lowering an interop call emits: for a zero count a direct call of
/// the named member with a no-argument void signature, else the arguments
/// left to right and a direct or virtual-dispatch call with the derived
/// signature and the decoded static flag; either way the result is routed
/// to the destination exactly when the derived signature's return type is
/// not void.  For the virtual convention the member-name slot is
/// substituted through the caller's own instantiation before it is read.
pub open spec fn spec_call_managed(
    subst: Seq<GenericArg>,
    argc: u32,
    args: Seq<Operand>,
    dest: Place,
    sig: FnSig,
    instantiation: Seq<GenericArg>,
    virt: bool,
) -> Result<Seq<CILOpView>, CodegenError> {
    if args.len() != argc {
        Err(CodegenError::WrongArgCount)
    } else if subst.len() < (if argc == 0 {
        4int
    } else {
        5int
    }) {
        Err(CodegenError::WrongGenericArity)
    } else {
        match spec_interop_target(subst) {
            Err(e) => Err(e),
            Ok(tpe) => {
                let member = if virt {
                    spec_monomorphize(instantiation, subst[3])
                } else {
                    subst[3]
                };
                match member {
                    GenericArg::Str(name) => {
                        if argc == 0 {
                            let cs = CallSiteView {
                                tpe: Some(tpe),
                                name: name@,
                                signature: FnSigView {
                                    inputs: Seq::empty(),
                                    output: TypeView::Void,
                                },
                                is_static: true,
                            };
                            Ok(seq![CILOpView::Call(cs)] + spec_route(sig@.output, dest))
                        } else {
                            match subst[4] {
                                GenericArg::Flag(is_static) => {
                                    let cs = CallSiteView {
                                        tpe: Some(tpe),
                                        name: name@,
                                        signature: sig@,
                                        is_static,
                                    };
                                    let call_op = if virt {
                                        CILOpView::CallVirt(cs)
                                    } else {
                                        CILOpView::Call(cs)
                                    };
                                    Ok(
                                        operands_ops(args) + seq![call_op] + spec_route(
                                            sig@.output,
                                            dest,
                                        ),
                                    )
                                },
                                _ => Err(CodegenError::WrongSlotKind),
                            }
                        }
                    },
                    _ => Err(CodegenError::WrongSlotKind),
                }
            },
        }
    }
}

/// Shared lowering of the two interop call conventions.
fn lower_interop_call(
    subst_ref: &Vec<GenericArg>,
    args: &Vec<Operand>,
    destination: &Place,
    signature: &FnSig,
    instantiation: &Vec<GenericArg>,
    argc: u32,
    virt: bool,
) -> (r: Result<Vec<CILOp>, CodegenError>)
    ensures
        (match r {
            Ok(v) => spec_call_managed(
                subst_ref@,
                argc,
                args@,
                *destination,
                *signature,
                instantiation@,
                virt,
            ) == Ok::<Seq<CILOpView>, CodegenError>(ops_view(v@)),
            Err(e) => spec_call_managed(
                subst_ref@,
                argc,
                args@,
                *destination,
                *signature,
                instantiation@,
                virt,
            ) == Err::<Seq<CILOpView>, CodegenError>(e),
        }),
{
    if args.len() as u64 != argc as u64 {
        return Err(CodegenError::WrongArgCount);
    }
    let needed: usize = if argc == 0 {
        4
    } else {
        5
    };
    if subst_ref.len() < needed {
        return Err(CodegenError::WrongGenericArity);
    }
    let tpe = match interop_target(subst_ref) {
        Ok(t) => t,
        Err(e) => {
            return Err(e);
        },
    };
    // for the virtual convention the member-name slot may itself name a
    // generic parameter of the caller, so it is substituted first
    let member = if virt {
        monomorphize(instantiation, &subst_ref[3])
    } else {
        subst_ref[3].clone()
    };
    let ghost spec_member = if virt {
        spec_monomorphize(instantiation@, subst_ref@[3])
    } else {
        subst_ref@[3]
    };
    proof {
        assert(member@ == spec_member@);
    }
    let managed_fn_name = match garg_to_string(&member) {
        Ok(s) => s,
        Err(e) => {
            proof {
                assert(!(member@ is Str));
                assert(!(spec_member is Str));
            }
            return Err(e);
        },
    };
    proof {
        assert(spec_member is Str && managed_fn_name@ == spec_member->Str_0@);
    }
    if argc == 0 {
        let sig = FnSig { inputs: Vec::new(), output: Type::Void };
        proof {
            assert(types_view(sig.inputs@) =~= Seq::<TypeView>::empty());
        }
        let cs = CallSite::new(Some(tpe), managed_fn_name, sig, true);
        let mut call: Vec<CILOp> = Vec::new();
        call.push(CILOp::Call(cs));
        let r = if signature.output().is_void() {
            proof {
                assert(ops_view(call@) + spec_route(signature@.output, *destination) =~= ops_view(
                    call@,
                ));
            }
            call
        } else {
            place_set(destination, call)
        };
        proof {
            assert(ops_view(r@) =~= spec_call_managed(
                subst_ref@,
                argc,
                args@,
                *destination,
                *signature,
                instantiation@,
                virt,
            )->Ok_0);
        }
        Ok(r)
    } else {
        let is_static = match garg_to_bool(&subst_ref[4]) {
            Ok(b) => b,
            Err(e) => {
                return Err(e);
            },
        };
        let cs = CallSite::new(Some(tpe), managed_fn_name, signature.clone(), is_static);
        let mut call = lower_call_args(args);
        if virt {
            call.push(CILOp::CallVirt(cs));
        } else {
            call.push(CILOp::Call(cs));
        }
        let r = if signature.output().is_void() {
            proof {
                assert(ops_view(call@) + spec_route(signature@.output, *destination) =~= ops_view(
                    call@,
                ));
            }
            call
        } else {
            place_set(destination, call)
        };
        proof {
            assert(ops_view(r@) =~= spec_call_managed(
                subst_ref@,
                argc,
                args@,
                *destination,
                *signature,
                instantiation@,
                virt,
            )->Ok_0);
        }
        Ok(r)
    }
}

/// Calls a non-virtual managed function (used for interop).
pub fn call_managed(
    subst_ref: &Vec<GenericArg>,
    args: &Vec<Operand>,
    destination: &Place,
    signature: &FnSig,
    instantiation: &Vec<GenericArg>,
    argc: u32,
) -> (r: Result<Vec<CILOp>, CodegenError>)
    ensures
        (match r {
            Ok(v) => spec_call_managed(
                subst_ref@,
                argc,
                args@,
                *destination,
                *signature,
                instantiation@,
                false,
            ) == Ok::<Seq<CILOpView>, CodegenError>(ops_view(v@)),
            Err(e) => spec_call_managed(
                subst_ref@,
                argc,
                args@,
                *destination,
                *signature,
                instantiation@,
                false,
            ) == Err::<Seq<CILOpView>, CodegenError>(e),
        }),
{
    lower_interop_call(subst_ref, args, destination, signature, instantiation, argc, false)
}

/// Calls a virtual managed function (used for interop).
pub fn callvirt_managed(
    subst_ref: &Vec<GenericArg>,
    args: &Vec<Operand>,
    destination: &Place,
    signature: &FnSig,
    instantiation: &Vec<GenericArg>,
    argc: u32,
) -> (r: Result<Vec<CILOp>, CodegenError>)
    ensures
        (match r {
            Ok(v) => spec_call_managed(
                subst_ref@,
                argc,
                args@,
                *destination,
                *signature,
                instantiation@,
                true,
            ) == Ok::<Seq<CILOpView>, CodegenError>(ops_view(v@)),
            Err(e) => spec_call_managed(
                subst_ref@,
                argc,
                args@,
                *destination,
                *signature,
                instantiation@,
                true,
            ) == Err::<Seq<CILOpView>, CodegenError>(e),
        }),
{
    lower_interop_call(subst_ref, args, destination, signature, instantiation, argc, true)
}

/// What lowering a plain call emits: the arguments left to right, one
/// direct call of the named function with the derived signature and the
/// static flag fixed to true, and the destination store exactly when the
/// return type is not void.
pub open spec fn spec_plain_call(
    name: Seq<char>,
    sig: FnSig,
    args: Seq<Operand>,
    dest: Place,
) -> Seq<CILOpView> {
    let cs = CallSiteView { tpe: None, name, signature: sig@, is_static: true };
    operands_ops(args) + seq![CILOpView::Call(cs)] + spec_route(sig@.output, dest)
}

/// What lowering a call terminator's call emits, for every callee type:
/// the callee must be a concrete function-definition type whose instance
/// resolved and whose signature was derived; its export name then decides
/// the convention.
pub open spec fn spec_call(
    fn_type: CalleeTy,
    args: Seq<Operand>,
    dest: Place,
    instantiation: Seq<GenericArg>,
) -> Result<Seq<CILOpView>, CodegenError> {
    match fn_type {
        CalleeTy::NotFn => Err(CodegenError::NotAFunction),
        CalleeTy::FnDef { name, subst, sig } => match name {
            None => Err(CodegenError::UnresolvedInstance),
            Some(name) => match sig {
                None => Err(CodegenError::MissingSignature),
                Some(sig) => match spec_decode_name(name@) {
                    Err(e) => Err(e),
                    Ok(None) => Ok(spec_plain_call(name@, sig, args, dest)),
                    Ok(Some(conv)) => match conv.kind {
                        InteropKind::Ctor => spec_call_ctor(subst@, conv.argc, args, dest),
                        InteropKind::CallVirt => spec_call_managed(
                            subst@,
                            conv.argc,
                            args,
                            dest,
                            sig,
                            instantiation,
                            true,
                        ),
                        InteropKind::Call => spec_call_managed(
                            subst@,
                            conv.argc,
                            args,
                            dest,
                            sig,
                            instantiation,
                            false,
                        ),
                    },
                },
            },
        },
    }
}

/// Calls the function of type `fn_type` with `args`, routing the return
/// value into `destination`.
pub fn call(
    fn_type: &CalleeTy,
    args: &Vec<Operand>,
    destination: &Place,
    instantiation: &Vec<GenericArg>,
) -> (r: Result<Vec<CILOp>, CodegenError>)
    ensures
        (match r {
            Ok(v) => spec_call(*fn_type, args@, *destination, instantiation@) == Ok::<
                Seq<CILOpView>,
                CodegenError,
            >(ops_view(v@)),
            Err(e) => spec_call(*fn_type, args@, *destination, instantiation@) == Err::<
                Seq<CILOpView>,
                CodegenError,
            >(e),
        }),
{
    let (function_name, subst_ref, signature) = match fn_type {
        CalleeTy::NotFn => {
            return Err(CodegenError::NotAFunction);
        },
        CalleeTy::FnDef { name, subst, sig } => {
            let name = match name {
                Some(n) => n,
                None => {
                    return Err(CodegenError::UnresolvedInstance);
                },
            };
            let sig = match sig {
                Some(s) => s,
                None => {
                    return Err(CodegenError::MissingSignature);
                },
            };
            (name, subst, sig)
        },
    };
    let convention = match decode_fn_name(function_name.as_str()) {
        Ok(c) => c,
        Err(e) => {
            return Err(e);
        },
    };
    match convention {
        Some(conv) => match conv.kind {
            InteropKind::Ctor => call_ctor(subst_ref, args, destination, conv.argc),
            InteropKind::CallVirt => callvirt_managed(
                subst_ref,
                args,
                destination,
                signature,
                instantiation,
                conv.argc,
            ),
            InteropKind::Call => call_managed(
                subst_ref,
                args,
                destination,
                signature,
                instantiation,
                conv.argc,
            ),
        },
        None => {
            let mut call = lower_call_args(args);
            let is_void = signature.output().is_void();
            let cs = CallSite::new(None, function_name.clone(), signature.clone(), true);
            call.push(CILOp::Call(cs));
            let r = if is_void {
                proof {
                    assert(ops_view(call@) + spec_route(signature@.output, *destination)
                        =~= ops_view(call@));
                }
                call
            } else {
                place_set(destination, call)
            };
            proof {
                assert(ops_view(r@) =~= spec_plain_call(
                    function_name@,
                    *signature,
                    args@,
                    *destination,
                ));
            }
            Ok(r)
        },
    }
}

} // verus!
