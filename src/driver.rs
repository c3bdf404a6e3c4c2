//! What the compiler driver does with its command line: run the compiler as
//! it is, print information, or compile with or without the lint passes.
use vstd::prelude::*;
use vstd::string::StringExecFns;
use crate::cli::{arg_candidates, arg_value, arg_views, rejected, str_equal};

verus! {

/// The stem of the file name that ends a path, if the path names a file.
pub uninterp spec fn file_stem_of(path: Seq<char>) -> Option<Seq<char>>;

/// Relies on `camino::Utf8Path::file_stem`: the file name of the path without
/// its final extension, which depends on the path's text alone.
#[verifier::external_body]
fn file_stem<'a>(path: &'a str) -> (r: Option<&'a str>)
    ensures
        match r {
            Some(s) => file_stem_of(path@) == Some(s@),
            None => file_stem_of(path@) is None,
        },
{
    camino::Utf8Path::new(path).file_stem()
}

/// What the driver does.
#[derive(Clone, Copy, Debug, PartialEq, Eq, Structural)]
pub enum DriverAction {
    /// Run the compiler as it is (`--rustc`).
    RunRustc,
    PrintVersion,
    /// Print the toolchain and interface versions that the driver needs.
    PrintToolchain,
    PrintHelp,
    /// Compile without the lint passes.
    Compile,
    /// Compile with the lint passes.
    CompileWithMarker,
}

/// The driver's action and the arguments to hand to the compiler.
#[derive(Debug)]
pub struct DriverPlan {
    pub action: DriverAction,
    pub args: Vec<String>,
}

/// The characters of an optional string.
pub open spec fn opt_string_view(s: Option<String>) -> Option<Seq<char>> {
    match s {
        Some(s) => Some(s@),
        None => None,
    }
}

/// The characters of each argument.
pub open spec fn string_views(args: Seq<String>) -> Seq<Seq<char>> {
    args.map_values(|s: String| s@)
}

/// The position of the first `x` at or after `from`, or the length if there is none.
pub open spec fn position_of(args: Seq<Seq<char>>, x: Seq<char>, from: int) -> int
    decreases args.len() - from,
{
    if from < 0 || from >= args.len() {
        args.len() as int
    } else if args[from] == x {
        from
    } else {
        position_of(args, x, from + 1)
    }
}

/// The arguments with `--sysroot` added from the environment, unless one is given.
pub open spec fn with_sysroot(args: Seq<Seq<char>>, sysroot: Option<Seq<char>>) -> Seq<Seq<char>> {
    match sysroot {
        Some(s) => if arg_candidates(args, "--sysroot"@).len() == 0 {
            args + seq!["--sysroot"@, s]
        } else {
            args
        },
        None => args,
    }
}

/// The arguments for running the compiler as it is: the program name becomes `rustc`.
pub open spec fn rustc_args(args: Seq<Seq<char>>) -> Seq<Seq<char>> {
    if args.len() > 0 {
        args.update(0, "rustc"@)
    } else {
        seq!["rustc"@]
    }
}

/// Whether the lint passes stay off: lints are capped at `allow` (for a
/// dependency), unless some lint is forced to warn.
pub open spec fn caps_lints(args: Seq<Seq<char>>) -> bool {
    arg_candidates(args, "--cap-lints"@).contains("allow"@) && arg_candidates(
        args,
        "--force-warn"@,
    ).len() == 0
}

/// The second argument once the sysroot is added: the program that the
/// driver wraps, where it runs as a compiler wrapper.
pub open spec fn wrapped_program(args: Seq<Seq<char>>, sysroot: Option<Seq<char>>) -> Option<Seq<char>> {
    let a1 = with_sysroot(args, sysroot);
    if a1.len() > 1 {
        Some(a1[1])
    } else {
        None
    }
}

/// What the driver does with the arguments `args`, given the sysroot from the
/// environment and whether the crate is the primary package.
pub open spec fn spec_driver_plan(
    args: Seq<Seq<char>>,
    sysroot: Option<Seq<char>>,
    in_primary_package: bool,
) -> (DriverAction, Seq<Seq<char>>) {
    spec_driver_plan_given_stem(
        args,
        sysroot,
        in_primary_package,
        match wrapped_program(args, sysroot) {
            Some(p) => file_stem_of(p),
            None => None,
        },
    )
}

/// What the driver does, where `stem` is the file stem of the second argument
/// once the sysroot is added.
pub open spec fn spec_driver_plan_given_stem(
    args: Seq<Seq<char>>,
    sysroot: Option<Seq<char>>,
    in_primary_package: bool,
    stem: Option<Seq<char>>,
) -> (DriverAction, Seq<Seq<char>>) {
    let a1 = with_sysroot(args, sysroot);
    let p = position_of(a1, "--rustc"@, 0);
    if p < a1.len() {
        (DriverAction::RunRustc, rustc_args(a1.remove(p)))
    } else if a1.contains("--version"@) || a1.contains("-V"@) {
        (DriverAction::PrintVersion, a1)
    } else if a1.contains("--toolchain"@) {
        (DriverAction::PrintToolchain, a1)
    } else {
        let wrapper = a1.len() > 1 && stem == Some("rustc"@);
        let a2 = if wrapper {
            a1.remove(1)
        } else {
            a1
        };
        if !wrapper && (a2.contains("--help"@) || a2.contains("-h"@)) {
            (DriverAction::PrintHelp, a2)
        } else if !caps_lints(a2) && (!a2.contains("--no-deps"@) || in_primary_package) {
            (DriverAction::CompileWithMarker, a2)
        } else {
            (DriverAction::Compile, a2)
        }
    }
}

fn as_strs<'a>(args: &'a Vec<String>) -> (r: Vec<&'a str>)
    ensures
        arg_views(r@) == string_views(args@),
{
    let mut r: Vec<&'a str> = Vec::new();
    let mut i: usize = 0;
    while i < args.len()
        invariant
            0 <= i <= args@.len(),
            r@.len() == i,
            forall|j: int| 0 <= j < i ==> (#[trigger] r@[j])@ == args@[j]@,
        decreases args@.len() - i,
    {
        r.push(args[i].as_str());
        i += 1;
    }
    assert(arg_views(r@) =~= string_views(args@));
    r
}

fn position(args: &Vec<String>, x: &str) -> (r: usize)
    ensures
        r == position_of(string_views(args@), x@, 0),
{
    let ghost v = string_views(args@);
    let mut i: usize = 0;
    while i < args.len()
        invariant
            0 <= i <= args@.len(),
            v == string_views(args@),
            position_of(v, x@, 0) == position_of(v, x@, i as int),
        decreases args@.len() - i,
    {
        if str_equal(args[i].as_str(), x) {
            return i;
        }
        i += 1;
    }
    i
}

fn contains_arg(args: &Vec<String>, x: &str) -> (r: bool)
    ensures
        r == string_views(args@).contains(x@),
{
    let ghost v = string_views(args@);
    let mut i: usize = 0;
    while i < args.len()
        invariant
            0 <= i <= args@.len(),
            v == string_views(args@),
            forall|j: int| 0 <= j < i ==> v[j] != x@,
        decreases args@.len() - i,
    {
        if str_equal(args[i].as_str(), x) {
            assert(v[i as int] == x@);
            return true;
        }
        i += 1;
    }
    false
}

fn copy_args(args: &Vec<String>) -> (r: Vec<String>)
    ensures
        string_views(r@) == string_views(args@),
{
    let mut r: Vec<String> = Vec::new();
    let mut i: usize = 0;
    while i < args.len()
        invariant
            0 <= i <= args@.len(),
            r@.len() == i,
            forall|j: int| 0 <= j < i ==> (#[trigger] r@[j])@ == args@[j]@,
        decreases args@.len() - i,
    {
        r.push(args[i].clone());
        i += 1;
    }
    assert(string_views(r@) =~= string_views(args@));
    r
}

fn remove_arg(args: &mut Vec<String>, index: usize)
    requires
        index < old(args)@.len(),
    ensures
        string_views(final(args)@) == string_views(old(args)@).remove(index as int),
{
    args.remove(index);
    assert(string_views(args@) =~= string_views(old(args)@).remove(index as int));
}

/// Decides what the driver does with its arguments; `sysroot` is the sysroot
/// given by the environment, if any.
pub fn driver_plan(args: &Vec<String>, sysroot: Option<String>, in_primary_package: bool) -> (r:
    DriverPlan)
    ensures
        (r.action, string_views(r.args@)) == spec_driver_plan(
            string_views(args@),
            match sysroot {
                Some(s) => Some(s@),
                None => None,
            },
            in_primary_package,
        ),
{
    let ghost sys = opt_string_view(sysroot);
    let a1 = with_sysroot_args(args, sysroot);
    let stem: Option<String> = if a1.len() > 1 {
        match file_stem(a1[1].as_str()) {
            Some(s) => Some(s.to_owned()),
            None => None,
        }
    } else {
        None
    };
    let ghost stem_view = opt_string_view(stem);
    assert(stem_view == match wrapped_program(string_views(args@), sys) {
        Some(p) => file_stem_of(p),
        None => None,
    });
    driver_plan_given_stem(a1, stem, in_primary_package)
}

/// The arguments with `--sysroot` added from the environment, unless one is given.
fn with_sysroot_args(args: &Vec<String>, sysroot: Option<String>) -> (r: Vec<String>)
    ensures
        string_views(r@) == with_sysroot(
            string_views(args@),
            match sysroot {
                Some(s) => Some(s@),
                None => None,
            },
        ),
{
    let ghost v0 = string_views(args@);
    let mut a1 = copy_args(args);
    let any = |_v: &str| -> (b: bool)
        ensures
            b,
        { true };
    let has_sysroot = {
        let strs = as_strs(&a1);
        arg_value(strs.as_slice(), "--sysroot", any).is_some()
    };
    proof {
        let cands = arg_candidates(v0, "--sysroot"@);
        if !has_sysroot && cands.len() > 0 {
            assert(rejected(any, cands[0]));
            let w = choose|w: &str| w@ == cands[0] && any.ensures((w,), false);
            assert(any.ensures((w,), false));
        }
    }
    match sysroot {
        Some(s) => {
            if !has_sysroot {
                let ghost before = string_views(a1@);
                a1.push("--sysroot".to_owned());
                a1.push(s);
                assert(string_views(a1@) =~= before + seq!["--sysroot"@, s@]);
            }
        },
        None => {},
    }
    a1
}

/// Decides what the driver does with arguments to which the sysroot has been
/// added, where `stem` is the file stem of the second argument, if any.
pub fn driver_plan_given_stem(args: Vec<String>, stem: Option<String>, in_primary_package: bool) -> (r:
    DriverPlan)
    ensures
        (r.action, string_views(r.args@)) == spec_driver_plan_given_stem(
            string_views(args@),
            None,
            in_primary_package,
            opt_string_view(stem),
        ),
{
    let mut a1 = args;
    let any = |_v: &str| -> (b: bool)
        ensures
            b,
        { true };
    let ghost v1 = string_views(a1@);
    let p = position(&a1, "--rustc");
    if p < a1.len() {
        remove_arg(&mut a1, p);
        if a1.len() > 0 {
            let ghost before = string_views(a1@);
            a1.set(0, "rustc".to_owned());
            assert(string_views(a1@) =~= before.update(0, "rustc"@));
        } else {
            a1.push("rustc".to_owned());
            assert(string_views(a1@) =~= seq!["rustc"@]);
        }
        return DriverPlan { action: DriverAction::RunRustc, args: a1 };
    }
    if contains_arg(&a1, "--version") || contains_arg(&a1, "-V") {
        return DriverPlan { action: DriverAction::PrintVersion, args: a1 };
    }
    if contains_arg(&a1, "--toolchain") {
        return DriverPlan { action: DriverAction::PrintToolchain, args: a1 };
    }
    let wrapper = a1.len() > 1 && match &stem {
        Some(stem) => str_equal(stem.as_str(), "rustc"),
        None => false,
    };
    if wrapper {
        remove_arg(&mut a1, 1);
    }
    if !wrapper && (contains_arg(&a1, "--help") || contains_arg(&a1, "-h")) {
        return DriverPlan { action: DriverAction::PrintHelp, args: a1 };
    }
    let ghost v2 = string_views(a1@);
    let is_allow = |v: &str| -> (b: bool)
        ensures
            b == (v@ == "allow"@),
        { str_equal(v, "allow") };
    let (capped, forced) = {
        let strs = as_strs(&a1);
        let capped = arg_value(strs.as_slice(), "--cap-lints", is_allow).is_some();
        let forced = arg_value(strs.as_slice(), "--force-warn", any).is_some();
        (capped, forced)
    };
    proof {
        let caps = arg_candidates(v2, "--cap-lints"@);
        if !capped {
            assert forall|j: int| 0 <= j < caps.len() implies caps[j] != "allow"@ by {
                assert(rejected(is_allow, caps[j]));
                let w = choose|w: &str| w@ == caps[j] && is_allow.ensures((w,), false);
                assert(is_allow.ensures((w,), false));
            }
        }
        let forces = arg_candidates(v2, "--force-warn"@);
        if !forced && forces.len() > 0 {
            assert(rejected(any, forces[0]));
            let w = choose|w: &str| w@ == forces[0] && any.ensures((w,), false);
            assert(any.ensures((w,), false));
        }
    }
    let cap_lints_allow = capped && !forced;
    let no_deps = contains_arg(&a1, "--no-deps");
    let action = if !cap_lints_allow && (!no_deps || in_primary_package) {
        DriverAction::CompileWithMarker
    } else {
        DriverAction::Compile
    };
    DriverPlan { action, args: a1 }
}

/// The `--cfg` flag that lets code test for one lint crate: `--cfg=marker="name"`.
pub open spec fn crate_cfg(name: Seq<char>) -> Seq<char> {
    "--cfg=marker=\""@ + name + "\""@
}

/// The arguments for compiling with the lint passes: the given ones, then the
/// flags that register the `marker` tool and set the `marker` cfg, then one
/// cfg per lint crate.
pub open spec fn spec_marker_args(args: Seq<Seq<char>>, crate_names: Seq<Seq<char>>) -> Seq<Seq<char>> {
    args + seq![
        "-Zcrate-attr=feature(register_tool)"@,
        "-Zcrate-attr=register_tool(marker)"@,
        "--cfg=marker"@,
    ] + crate_names.map_values(|n: Seq<char>| crate_cfg(n))
}

/// Adds to `args` the arguments for compiling with the lint passes of the
/// named lint crates.
pub fn add_marker_args(args: &mut Vec<String>, crate_names: &Vec<String>)
    ensures
        string_views(final(args)@) == spec_marker_args(
            string_views(old(args)@),
            string_views(crate_names@),
        ),
{
    let ghost start = string_views(args@);
    args.push("-Zcrate-attr=feature(register_tool)".to_owned());
    args.push("-Zcrate-attr=register_tool(marker)".to_owned());
    args.push("--cfg=marker".to_owned());
    let ghost fixed = start + seq![
        "-Zcrate-attr=feature(register_tool)"@,
        "-Zcrate-attr=register_tool(marker)"@,
        "--cfg=marker"@,
    ];
    assert(string_views(args@) =~= fixed);
    let ghost names = string_views(crate_names@);
    let mut i: usize = 0;
    while i < crate_names.len()
        invariant
            0 <= i <= crate_names@.len(),
            names == string_views(crate_names@),
            string_views(args@) == fixed + names.subrange(0, i as int).map_values(
                |n: Seq<char>| crate_cfg(n),
            ),
        decreases crate_names@.len() - i,
    {
        let mut flag = "--cfg=marker=\"".to_owned();
        flag.append(crate_names[i].as_str());
        flag.append("\"");
        let ghost before = string_views(args@);
        args.push(flag);
        proof {
            assert(names.subrange(0, i as int + 1).map_values(|n: Seq<char>| crate_cfg(n))
                =~= names.subrange(0, i as int).map_values(|n: Seq<char>| crate_cfg(n)).push(
                crate_cfg(names[i as int]),
            ));
            assert(string_views(args@) =~= before.push(crate_cfg(names[i as int])));
        }
        i += 1;
    }
    assert(names.subrange(0, i as int) =~= names);
}

} // verus!
