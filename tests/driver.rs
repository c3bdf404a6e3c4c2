use marker::driver::{add_marker_args, driver_plan, driver_plan_given_stem, DriverAction};

fn args(list: &[&str]) -> Vec<String> {
    list.iter().map(|s| s.to_string()).collect()
}

#[test]
fn sysroot_is_added_from_the_environment() {
    let plan = driver_plan(&args(&["driver", "main.rs"]), Some("/sys".to_string()), false);
    assert_eq!(plan.action, DriverAction::CompileWithMarker);
    assert_eq!(plan.args, args(&["driver", "main.rs", "--sysroot", "/sys"]));
    let plan = driver_plan(&args(&["driver", "--sysroot=/own"]), Some("/sys".to_string()), false);
    assert_eq!(plan.args, args(&["driver", "--sysroot=/own"]));
}

#[test]
fn rustc_flag_runs_the_compiler_as_it_is() {
    let plan = driver_plan(&args(&["driver", "--rustc", "--version"]), None, false);
    assert_eq!(plan.action, DriverAction::RunRustc);
    assert_eq!(plan.args, args(&["rustc", "--version"]));
}

#[test]
fn information_flags() {
    assert_eq!(driver_plan(&args(&["driver", "-V"]), None, false).action, DriverAction::PrintVersion);
    assert_eq!(driver_plan(&args(&["driver", "--toolchain"]), None, false).action, DriverAction::PrintToolchain);
    assert_eq!(driver_plan(&args(&["driver", "--help"]), None, false).action, DriverAction::PrintHelp);
}

#[test]
fn wrapper_mode_drops_rustc_and_ignores_help() {
    let plan = driver_plan(&args(&["driver", "/usr/bin/rustc", "-h"]), None, false);
    assert_eq!(plan.action, DriverAction::CompileWithMarker);
    assert_eq!(plan.args, args(&["driver", "-h"]));
    let plan = driver_plan(&args(&["driver", "rustc.exe", "lib.rs"]), None, false);
    assert_eq!(plan.args, args(&["driver", "lib.rs"]));
}

#[test]
fn dependencies_are_compiled_without_lints() {
    let capped = args(&["driver", "lib.rs", "--cap-lints", "allow"]);
    assert_eq!(driver_plan(&capped, None, false).action, DriverAction::Compile);
    let forced = args(&["driver", "lib.rs", "--cap-lints", "allow", "--force-warn=x"]);
    assert_eq!(driver_plan(&forced, None, false).action, DriverAction::CompileWithMarker);
    let warn = args(&["driver", "lib.rs", "--cap-lints=warn"]);
    assert_eq!(driver_plan(&warn, None, false).action, DriverAction::CompileWithMarker);
}

#[test]
fn no_deps_limits_lints_to_the_primary_package() {
    let no_deps = args(&["driver", "lib.rs", "--no-deps"]);
    assert_eq!(driver_plan(&no_deps, None, false).action, DriverAction::Compile);
    assert_eq!(driver_plan(&no_deps, None, true).action, DriverAction::CompileWithMarker);
}

#[test]
fn marker_args_are_appended() {
    let mut a = args(&["driver", "lib.rs"]);
    add_marker_args(&mut a, &args(&["lints_a", "b"]));
    assert_eq!(
        a,
        args(&[
            "driver",
            "lib.rs",
            "-Zcrate-attr=feature(register_tool)",
            "-Zcrate-attr=register_tool(marker)",
            "--cfg=marker",
            "--cfg=marker=\"lints_a\"",
            "--cfg=marker=\"b\"",
        ])
    );
}

#[test]
fn wrapper_mode_follows_the_given_stem() {
    let a = args(&["driver", "anything", "-h"]);
    let wrapped = driver_plan_given_stem(a.clone(), Some("rustc".to_string()), false);
    assert_eq!(wrapped.action, DriverAction::CompileWithMarker);
    assert_eq!(wrapped.args, args(&["driver", "-h"]));
    let plain = driver_plan_given_stem(a.clone(), Some("cargo".to_string()), false);
    assert_eq!(plain.action, DriverAction::PrintHelp);
    assert_eq!(plain.args, a);
    let none = driver_plan_given_stem(args(&["driver", "lib.rs"]), None, false);
    assert_eq!(none.action, DriverAction::CompileWithMarker);
}
