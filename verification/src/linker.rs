//! The decision logic of the assembly-merging linker front door: which
//! command-line arguments name bytecode files or archives to link, where
//! the output goes, whether it is a library, and which ahead-of-time
//! compilation mode is requested.  Opening, reading and merging the
//! files, and running the ahead-of-time compiler, are I/O around this
//! logic and live outside it.

use vstd::prelude::*;

use crate::text::{chars_of, find_first_from, first_match_from, occurs};

verus! {

/// Whether the pattern `pat` occurs anywhere in `s`.
pub fn contains_sub(s: &str, pat: &str) -> (r: bool)
    requires
        pat@.len() > 0,
    ensures
        r == occurs(s@, pat@),
{
    let hay = chars_of(s);
    let needle = chars_of(pat);
    let found = find_first_from(hay.as_slice(), needle.as_slice(), 0);
    proof {
        crate::convention::lemma_occurs_iff_found(s@, pat@);
    }
    match found {
        Some(_) => true,
        None => false,
    }
}

/// Whether an archive member or argument names a bytecode file.
pub open spec fn spec_names_bytecode(s: Seq<char>) -> bool {
    occurs(s, ".bc"@)
}

/// Whether an argument names a bytecode file to link.
pub fn names_bytecode(s: &str) -> (r: bool)
    ensures
        r == spec_names_bytecode(s@),
{
    proof {
        reveal_strlit(".bc");
    }
    contains_sub(s, ".bc")
}

/// Whether an argument names a static archive to link.
pub open spec fn spec_names_archive(s: Seq<char>) -> bool {
    occurs(s, ".rlib"@)
}

/// Whether an argument names a static archive to link.
pub fn names_archive(s: &str) -> (r: bool)
    ensures
        r == spec_names_archive(s@),
{
    proof {
        reveal_strlit(".rlib");
    }
    contains_sub(s, ".rlib")
}

/// Whether an output path names a library rather than an executable.
pub open spec fn spec_output_is_lib(s: Seq<char>) -> bool {
    occurs(s, ".dll"@) || occurs(s, ".so"@) || occurs(s, ".o"@)
}

/// Whether an output path names a library rather than an executable.
pub fn output_is_lib(output: &str) -> (r: bool)
    ensures
        r == spec_output_is_lib(output@),
{
    proof {
        reveal_strlit(".dll");
        reveal_strlit(".so");
        reveal_strlit(".o");
    }
    contains_sub(output, ".dll") || contains_sub(output, ".so") || contains_sub(output, ".o")
}

/// The character sequences of a sequence of strings.
pub open spec fn strings_view(s: Seq<String>) -> Seq<Seq<char>> {
    s.map_values(|x: String| x@)
}

/// Whether a name names a bytecode file, as a filter predicate.
pub open spec fn bytecode_pred() -> spec_fn(Seq<char>) -> bool {
    |s: Seq<char>| spec_names_bytecode(s)
}

/// Whether a name names a static archive, as a filter predicate.
pub open spec fn archive_pred() -> spec_fn(Seq<char>) -> bool {
    |s: Seq<char>| spec_names_archive(s)
}

/// The arguments that name bytecode files to link, in order.
pub fn bytecode_inputs(args: &Vec<String>) -> (r: Vec<String>)
    ensures
        strings_view(r@) == strings_view(args@).filter(bytecode_pred()),
{
    selected_inputs(args, true)
}

/// The arguments that name static archives to link, in order.
pub fn archive_inputs(args: &Vec<String>) -> (r: Vec<String>)
    ensures
        strings_view(r@) == strings_view(args@).filter(archive_pred()),
{
    selected_inputs(args, false)
}

/// Keeps the arguments that name bytecode files (or, with `bytecode`
/// false, static archives), in order.
fn selected_inputs(args: &Vec<String>, bytecode: bool) -> (r: Vec<String>)
    ensures
        strings_view(r@) == strings_view(args@).filter(
            if bytecode {
                bytecode_pred()
            } else {
                archive_pred()
            },
        ),
{
    let ghost pred = if bytecode {
        bytecode_pred()
    } else {
        archive_pred()
    };
    let mut r: Vec<String> = Vec::new();
    proof {
        reveal(Seq::filter);
        assert(strings_view(r@) =~= strings_view(args@.take(0)).filter(pred));
    }
    let mut i: usize = 0;
    while i < args.len()
        invariant
            i <= args@.len(),
            strings_view(r@) == strings_view(args@.take(i as int)).filter(pred),
            pred == (if bytecode {
                bytecode_pred()
            } else {
                archive_pred()
            }),
        decreases args@.len() - i,
    {
        let keep = if bytecode {
            names_bytecode(args[i].as_str())
        } else {
            names_archive(args[i].as_str())
        };
        let ghost prev = r@;
        if keep {
            r.push(args[i].clone());
        }
        proof {
            reveal(Seq::filter);
            let mapped = strings_view(args@.take(i + 1));
            assert(mapped.drop_last() =~= strings_view(args@.take(i as int)));
            assert(mapped.last() == args@[i as int]@);
            if keep {
                assert(strings_view(r@) =~= strings_view(prev).push(args@[i as int]@));
            } else {
                assert(strings_view(r@) =~= strings_view(prev));
            }
        }
        i = i + 1;
    }
    proof {
        assert(args@.take(args@.len() as int) =~= args@);
    }
    r
}

/// The first position at or after `from` whose argument is the given
/// word.
pub open spec fn spec_arg_position(args: Seq<String>, word: Seq<char>, from: int) -> Option<int>
    decreases args.len() - from when from >= 0
{
    if from < 0 || from >= args.len() {
        None
    } else if args[from]@ == word {
        Some(from)
    } else {
        spec_arg_position(args, word, from + 1)
    }
}

/// Finds the first argument equal to `word`.
fn arg_position(args: &Vec<String>, word: &str) -> (r: Option<usize>)
    ensures
        (match r {
            Some(i) => spec_arg_position(args@, word@, 0) == Some(i as int) && i < args@.len(),
            None => spec_arg_position(args@, word@, 0) is None,
        }),
{
    let w: String = word.to_owned();
    let mut i: usize = 0;
    while i < args.len()
        invariant
            i <= args@.len(),
            w@ == word@,
            forall|j: int| 0 <= j < i ==> args@[j]@ != word@,
        decreases args@.len() - i,
    {
        if args[i] == w {
            proof {
                lemma_arg_position_found(args@, word@, 0, i as int);
            }
            return Some(i);
        }
        i = i + 1;
    }
    proof {
        lemma_arg_position_missing(args@, word@, 0);
    }
    None
}

proof fn lemma_arg_position_found(args: Seq<String>, word: Seq<char>, from: int, i: int)
    requires
        0 <= from <= i < args.len(),
        args[i]@ == word,
        forall|j: int| from <= j < i ==> args[j]@ != word,
    ensures
        spec_arg_position(args, word, from) == Some(i),
    decreases i - from,
{
    if from < i {
        lemma_arg_position_found(args, word, from + 1, i);
    }
}

proof fn lemma_arg_position_missing(args: Seq<String>, word: Seq<char>, from: int)
    requires
        0 <= from,
        forall|j: int| from <= j < args.len() ==> args[j]@ != word,
    ensures
        spec_arg_position(args, word, from) is None,
    decreases args.len() - from,
{
    if from < args.len() {
        lemma_arg_position_missing(args, word, from + 1);
    }
}

/// The output path: the argument right after `-o`, when both exist.
pub fn output_path(args: &Vec<String>) -> (r: Option<String>)
    ensures
        (match spec_arg_position(args@, "-o"@, 0) {
            Some(p) => if p + 1 < args@.len() {
                r matches Some(out) && out@ == args@[p + 1]@
            } else {
                r is None
            },
            None => r is None,
        }),
{
    let n = args.len();
    match arg_position(args, "-o") {
        Some(p) => {
            if p + 1 < n {
                Some(args[p + 1].clone())
            } else {
                None
            }
        },
        None => None,
    }
}

/// The requested ahead-of-time compilation mode.  Running the
/// ahead-of-time compiler itself is a process the host spawns; this
/// decides only which one.
#[derive(Clone, Copy, Debug, PartialEq, Eq, Structural)]
pub enum AOTCompileMode {
    NoAOT,
    MonoAOT,
    FullMonoAOT,
}

/// Whether a word names an ahead-of-time compilation mode.
pub open spec fn spec_known_aot_word(s: Seq<char>) -> bool {
    ||| spec_aot_word_none(s)
    ||| spec_aot_word_mono(s)
    ||| spec_aot_word_full(s)
}

/// The words that decline ahead-of-time compilation.
pub open spec fn spec_aot_word_none(s: Seq<char>) -> bool {
    s == "no"@ || s == "none"@ || s == "no_aot"@ || s == "no-aot"@
}

/// The words that request ahead-of-time compilation.
pub open spec fn spec_aot_word_mono(s: Seq<char>) -> bool {
    s == "mono"@ || s == "mono_aot"@ || s == "mono-aot"@
}

/// The words that request full ahead-of-time compilation.
pub open spec fn spec_aot_word_full(s: Seq<char>) -> bool {
    s == "mono_full"@ || s == "mono-full"@ || s == "mono_full_aot"@ || s == "mono-full-aot"@
}

/// The mode a known word requests.
pub open spec fn spec_aot_mode_of(s: Seq<char>) -> AOTCompileMode {
    if spec_aot_word_none(s) {
        AOTCompileMode::NoAOT
    } else if spec_aot_word_mono(s) {
        AOTCompileMode::MonoAOT
    } else {
        AOTCompileMode::FullMonoAOT
    }
}

fn string_is(s: &String, word: &str) -> (r: bool)
    ensures
        r == (s@ == word@),
{
    let w: String = word.to_owned();
    *s == w
}

/// Whether the argument list satisfies what [`aot_compile_mode`] asks:
/// either no `--aot_mode` flag, or one followed by a known mode word.  A
/// host checks this first and aborts where it fails, as a flag without a
/// valid word is an operator error.
pub fn aot_flag_well_formed(args: &Vec<String>) -> (r: bool)
    ensures
        r == (match spec_arg_position(args@, "--aot_mode"@, 0) {
            Some(p) => p + 1 < args@.len() && spec_known_aot_word(args@[p + 1]@),
            None => true,
        }),
{
    let n = args.len();
    match arg_position(args, "--aot_mode") {
        Some(p) => {
            if p + 1 >= n {
                return false;
            }
            let word = &args[p + 1];
            string_is(word, "no") || string_is(word, "none") || string_is(word, "no_aot")
                || string_is(word, "no-aot") || string_is(word, "mono") || string_is(
                word,
                "mono_aot",
            ) || string_is(word, "mono-aot") || string_is(word, "mono_full") || string_is(
                word,
                "mono-full",
            ) || string_is(word, "mono_full_aot") || string_is(word, "mono-full-aot")
        },
        None => true,
    }
}

/// Reads the requested ahead-of-time compilation mode off the argument
/// list: no `--aot_mode` flag means none.  A flag without a following
/// word, or with an unknown word, aborts the host, so those inputs stay
/// out.
pub fn aot_compile_mode(args: &Vec<String>) -> (r: AOTCompileMode)
    requires
        (match spec_arg_position(args@, "--aot_mode"@, 0) {
            Some(p) => p + 1 < args@.len() && spec_known_aot_word(args@[p + 1]@),
            None => true,
        }),
    ensures
        r == (match spec_arg_position(args@, "--aot_mode"@, 0) {
            Some(p) => spec_aot_mode_of(args@[p + 1]@),
            None => AOTCompileMode::NoAOT,
        }),
{
    let n = args.len();
    let p = match arg_position(args, "--aot_mode") {
        Some(p) => p,
        None => {
            return AOTCompileMode::NoAOT;
        },
    };
    proof {
        assert(p + 1 < n);
    }
    let word = &args[p + 1];
    if string_is(word, "no") || string_is(word, "none") || string_is(word, "no_aot") || string_is(
        word,
        "no-aot",
    ) {
        AOTCompileMode::NoAOT
    } else if string_is(word, "mono") || string_is(word, "mono_aot") || string_is(
        word,
        "mono-aot",
    ) {
        AOTCompileMode::MonoAOT
    } else {
        AOTCompileMode::FullMonoAOT
    }
}

} // verus!
