use cilgen::linker::{
    aot_compile_mode, aot_flag_well_formed, archive_inputs, bytecode_inputs, names_archive,
    names_bytecode, output_is_lib, output_path, AOTCompileMode,
};

fn args(words: &[&str]) -> Vec<String> {
    words.iter().map(|w| w.to_string()).collect()
}

#[test]
fn aot_mode_defaults_to_none() {
    assert_eq!(aot_compile_mode(&args(&["a.bc", "-o", "out"])), AOTCompileMode::NoAOT);
}

#[test]
fn aot_mode_words() {
    for w in ["no", "none", "no_aot", "no-aot"] {
        assert_eq!(
            aot_compile_mode(&args(&["--aot_mode", w])),
            AOTCompileMode::NoAOT
        );
    }
    for w in ["mono", "mono_aot", "mono-aot"] {
        assert_eq!(
            aot_compile_mode(&args(&["--aot_mode", w])),
            AOTCompileMode::MonoAOT
        );
    }
    for w in ["mono_full", "mono-full", "mono_full_aot", "mono-full-aot"] {
        assert_eq!(
            aot_compile_mode(&args(&["--aot_mode", w])),
            AOTCompileMode::FullMonoAOT
        );
    }
}

#[test]
fn aot_flag_validity() {
    assert!(aot_flag_well_formed(&args(&["a.bc"])));
    assert!(aot_flag_well_formed(&args(&["--aot_mode", "mono"])));
    assert!(!aot_flag_well_formed(&args(&["--aot_mode"])));
    assert!(!aot_flag_well_formed(&args(&["--aot_mode", "jit"])));
}

#[test]
fn input_selection_keeps_order() {
    let a = args(&["x.bc", "lib.rlib", "-o", "out", "y.bc"]);
    assert_eq!(bytecode_inputs(&a), args(&["x.bc", "y.bc"]));
    assert_eq!(archive_inputs(&a), args(&["lib.rlib"]));
}

#[test]
fn input_name_tests() {
    assert!(names_bytecode("foo.bc"));
    assert!(!names_bytecode("foo.rlib"));
    assert!(names_archive("libz.rlib"));
    assert!(!names_archive("libz.bc"));
}

#[test]
fn output_path_follows_the_flag() {
    assert_eq!(
        output_path(&args(&["a.bc", "-o", "out.dll"])),
        Some("out.dll".to_string())
    );
    assert_eq!(output_path(&args(&["a.bc"])), None);
    assert_eq!(output_path(&args(&["a.bc", "-o"])), None);
}

#[test]
fn library_outputs() {
    assert!(output_is_lib("thing.dll"));
    assert!(output_is_lib("thing.so"));
    assert!(output_is_lib("thing.o"));
    assert!(!output_is_lib("thing.exe"));
}
