use cilgen::convention::{
    ctor_fn_name, decode_fn_name, managed_call_fn_name, managed_call_virt_fn_name, Convention,
    InteropKind,
};
use cilgen::errors::CodegenError;

#[test]
fn decode_plain_name() {
    assert_eq!(decode_fn_name("ordinary_function"), Ok(None));
    assert_eq!(decode_fn_name(""), Ok(None));
}

#[test]
fn decode_ctor_name() {
    assert_eq!(
        decode_fn_name("__monomorphize_ctor_2_Widget"),
        Ok(Some(Convention { kind: InteropKind::Ctor, argc: 2 }))
    );
}

#[test]
fn decode_call_virt_name() {
    assert_eq!(
        decode_fn_name("__monomorphize_call_virt_2_Foo"),
        Ok(Some(Convention { kind: InteropKind::CallVirt, argc: 2 }))
    );
}

#[test]
fn decode_call_name_zero_args() {
    assert_eq!(
        decode_fn_name("__monomorphize_call_0_Bar"),
        Ok(Some(Convention { kind: InteropKind::Call, argc: 0 }))
    );
}

#[test]
fn decode_name_with_mangling_prefix() {
    // the marker may sit anywhere inside a mangled export name
    assert_eq!(
        decode_fn_name("_ZN5crate__monomorphize_ctor_1_make17h0123456789abcdefE"),
        Ok(Some(Convention { kind: InteropKind::Ctor, argc: 1 }))
    );
}

#[test]
fn decode_missing_separator() {
    assert_eq!(
        decode_fn_name("__monomorphize_ctor_12"),
        Err(CodegenError::MissingSeparator)
    );
}

#[test]
fn decode_empty_count() {
    assert_eq!(
        decode_fn_name("__monomorphize_ctor__rest"),
        Err(CodegenError::BadArgCount)
    );
}

#[test]
fn decode_non_decimal_count() {
    assert_eq!(
        decode_fn_name("__monomorphize_ctor_12x_rest"),
        Err(CodegenError::BadArgCount)
    );
}

#[test]
fn decode_count_too_large() {
    assert_eq!(
        decode_fn_name("__monomorphize_ctor_4294967296_rest"),
        Err(CodegenError::BadArgCount)
    );
    // the largest count still fits
    assert_eq!(
        decode_fn_name("__monomorphize_ctor_4294967295_rest"),
        Ok(Some(Convention { kind: InteropKind::Ctor, argc: 4294967295 }))
    );
}

#[test]
fn decode_ctor_marker_wins_over_call() {
    // the constructor marker is tested first
    let name = format!("{}1_then{}2_x", ctor_fn_name(), managed_call_fn_name());
    assert_eq!(
        decode_fn_name(&name),
        Ok(Some(Convention { kind: InteropKind::Ctor, argc: 1 }))
    );
}

#[test]
fn decode_virt_marker_wins_over_call() {
    // a virtual-call name contains the non-virtual marker as a prefix of
    // its own marker, and must still decode as virtual
    let name = format!("{}3_Member", managed_call_virt_fn_name());
    assert!(name.contains(managed_call_fn_name()));
    assert_eq!(
        decode_fn_name(&name),
        Ok(Some(Convention { kind: InteropKind::CallVirt, argc: 3 }))
    );
}

#[test]
fn encode_decode_round_trip() {
    // a name built from each marker, a count and an original name decodes
    // back to the same convention and count
    for (marker, kind) in [
        (ctor_fn_name(), InteropKind::Ctor),
        (managed_call_virt_fn_name(), InteropKind::CallVirt),
        (managed_call_fn_name(), InteropKind::Call),
    ] {
        for argc in [0u32, 1, 7, 120, 4294967295] {
            let name = format!("{}{}_original_name", marker, argc);
            assert_eq!(decode_fn_name(&name), Ok(Some(Convention { kind, argc })));
        }
    }
}

#[test]
fn error_messages_name_their_cause() {
    assert_eq!(
        CodegenError::MissingSeparator.message(),
        "an interop marker lacks its `_` separator"
    );
    assert_eq!(
        CodegenError::UnsupportedTerminator.message(),
        "unhandled terminator kind"
    );
}
