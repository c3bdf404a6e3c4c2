use marker::cli::{
    arg_value, check_lint_crate_paths, choose_lint_crates, join_lint_crate_paths, split_lint_crate_paths,
    ExitStatus,
};

#[test]
fn test_arg_value() {
    let args = &["--bar=bar", "--foobar", "123", "--foo"];

    assert_eq!(arg_value(&[] as &[&str], "--foobar", |_| true), None);
    assert_eq!(arg_value(args, "--bar", |_| false), None);
    assert_eq!(arg_value(args, "--bar", |_| true), Some("bar"));
    assert_eq!(arg_value(args, "--bar", |p| p == "bar"), Some("bar"));
    assert_eq!(arg_value(args, "--bar", |p| p == "foo"), None);
    assert_eq!(arg_value(args, "--foobar", |p| p == "foo"), None);
    assert_eq!(arg_value(args, "--foobar", |p| p == "123"), Some("123"));
    assert_eq!(arg_value(args, "--foo", |_| true), None);
}

#[test]
fn arg_value_consumes_the_following_argument() {
    // Without `=`, the next argument is the value, whatever it looks like.
    let args = &["--sysroot", "--x", "--x=1"];
    assert_eq!(arg_value(args, "--x", |_| true), Some("--x=1"));
    assert_eq!(arg_value(args, "--sysroot", |_| true), Some("--x"));
    // The second "--x" is consumed as the first one's value and then rejected,
    // so it is not read as an option of its own.
    let args = &["--x", "--x", "2"];
    assert_eq!(arg_value(args, "--x", |v| v == "2"), None);
}

#[test]
fn arg_value_takes_a_later_accepted_value() {
    let args = &["--cap-lints=warn", "--cap-lints", "allow"];
    assert_eq!(arg_value(args, "--cap-lints", |v| v == "allow"), Some("allow"));
    assert_eq!(arg_value(args, "--cap-lints", |v| v == "warn"), Some("warn"));
}

#[test]
fn arg_value_splits_at_the_first_equals_sign() {
    let args = &["--cfg=marker=\"lints\""];
    assert_eq!(arg_value(args, "--cfg", |_| true), Some("marker=\"lints\""));
}

#[test]
fn split_paths_on_separator() {
    assert_eq!(split_lint_crate_paths("/a/liba.so;/b/libb.so"), vec!["/a/liba.so", "/b/libb.so"]);
    assert_eq!(split_lint_crate_paths("/a/liba.so"), vec!["/a/liba.so"]);
}

#[test]
fn split_paths_edge_cases() {
    assert_eq!(split_lint_crate_paths(""), vec![""]);
    assert_eq!(split_lint_crate_paths(";"), vec!["", ""]);
    assert_eq!(split_lint_crate_paths("a;;b;"), vec!["a", "", "b", ""]);
}

#[test]
fn exit_status_codes() {
    assert_eq!(ExitStatus::InvalidToolchain.code(), 100);
    assert_eq!(ExitStatus::LintCrateLibNotFound.code(), 502);
    assert_eq!(ExitStatus::NoLints.code(), 601);
    assert_eq!(ExitStatus::MarkerCheckFailed.code(), 1000);
}

#[test]
fn joined_paths_split_back() {
    let paths = vec!["/a/liba.so".to_string(), "/b/libb.so".to_string()];
    let joined = join_lint_crate_paths(&paths);
    assert_eq!(joined, "/a/liba.so;/b/libb.so");
    assert_eq!(split_lint_crate_paths(&joined), vec!["/a/liba.so", "/b/libb.so"]);
    assert_eq!(join_lint_crate_paths(&vec![]), "");
}

#[test]
fn lint_crate_paths_are_checked() {
    assert_eq!(check_lint_crate_paths(&vec![]), Err(ExitStatus::NoLints));
    assert_eq!(check_lint_crate_paths(&vec!["a;b".to_string()]), Err(ExitStatus::InvalidValue));
    assert_eq!(check_lint_crate_paths(&vec!["a".to_string(), "b".to_string()]), Ok(()));
}

#[test]
fn lint_crates_are_chosen_in_order() {
    let cli = Some(vec!["x".to_string()]);
    let config = Some(Ok(vec!["y".to_string()]));
    assert_eq!(choose_lint_crates(cli.clone(), config.clone()), Ok(vec!["x".to_string()]));
    assert_eq!(choose_lint_crates(None, config), Ok(vec!["y".to_string()]));
    assert_eq!(choose_lint_crates(None, Some(Err(ExitStatus::WrongStructure))), Err(ExitStatus::WrongStructure));
    assert_eq!(choose_lint_crates(None, None), Err(ExitStatus::NoLints));
}
