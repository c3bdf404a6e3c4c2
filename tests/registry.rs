use marker::registry::{
    load_decision, ExternalLintCrateRegistry, LintPassDeclaration, LintPassRegistry, LoadingError,
    LINTER_API_VERSION, RUSTC_VERSION,
};

fn decl(api: &str, rustc: &str) -> LintPassDeclaration {
    LintPassDeclaration { linter_api_version: api.to_string(), rustc_version: rustc.to_string() }
}

#[test]
fn matching_declaration_is_accepted() {
    let d = decl(LINTER_API_VERSION, RUSTC_VERSION);
    assert!(d.matches_host());
    assert_eq!(load_decision(true, Some(&d)), Ok(()));
}

#[test]
fn version_mismatch_is_refused_before_registration() {
    let mut registry: ExternalLintCrateRegistry<&str> = ExternalLintCrateRegistry::new();
    let api_mismatch = decl("0.0.0-other", RUSTC_VERSION);
    let rustc_mismatch = decl(LINTER_API_VERSION, "stable-1.0.0");
    for d in [&api_mismatch, &rustc_mismatch] {
        assert!(!d.matches_host());
        assert_eq!(load_decision(true, Some(d)), Err(LoadingError::IncompatibleVersion));
        assert_eq!(registry.load_external_lib(None, Some(d)), Err(LoadingError::FileNotFound));
    }
    assert_eq!(registry.pass_count(), 0);
}

#[test]
fn each_loading_error_has_its_input() {
    let d = decl(LINTER_API_VERSION, RUSTC_VERSION);
    assert_eq!(load_decision(false, Some(&d)), Err(LoadingError::FileNotFound));
    assert_eq!(load_decision(false, None), Err(LoadingError::FileNotFound));
    assert_eq!(load_decision(true, None), Err(LoadingError::MissingLintDeclaration));
    assert_eq!(load_decision(true, Some(&decl("x", "y"))), Err(LoadingError::IncompatibleVersion));
}

#[test]
fn registering_twice_keeps_two_passes() {
    let mut registry: ExternalLintCrateRegistry<u32> = ExternalLintCrateRegistry::new();
    registry.register("lint", 7);
    registry.register("lint", 7);
    assert_eq!(registry.pass_count(), 2);
    assert_eq!(registry.next_call(0), Some(0));
    assert_eq!(registry.next_call(1), Some(1));
    assert_eq!(registry.next_call(2), None);
    *registry.pass_mut(0) += 1;
    assert_eq!(*registry.pass_mut(0), 8);
    assert_eq!(*registry.pass_mut(1), 7);
}

/// Runs every pass that is not retired on `node`, in order; `faults` says
/// which pass faults on which node.
fn dispatch(
    registry: &mut ExternalLintCrateRegistry<&'static str>,
    node: &'static str,
    faults: &[(&str, &str)],
    trace: &mut Vec<(&'static str, &'static str)>,
) {
    let mut from = 0;
    while let Some(i) = registry.next_call(from) {
        let pass: &'static str = *registry.pass_mut(i);
        trace.push((pass, node));
        let faulted = faults.contains(&(pass, node));
        registry.record_outcome(i, faulted);
        from = i + 1;
    }
}

#[test]
fn faulting_pass_is_retired_for_the_session() {
    let mut registry: ExternalLintCrateRegistry<&'static str> = ExternalLintCrateRegistry::new();
    registry.register("a", "A");
    registry.register("b", "B");
    let mut trace = Vec::new();
    let faults = [("A", "X")];
    dispatch(&mut registry, "X", &faults, &mut trace);
    dispatch(&mut registry, "Y", &faults, &mut trace);
    assert_eq!(trace, vec![("A", "X"), ("B", "X"), ("B", "Y")]);
    assert!(registry.is_retired(0));
    assert!(!registry.is_retired(1));
}

#[test]
fn all_passes_retired_ends_dispatch() {
    let mut registry: ExternalLintCrateRegistry<&'static str> = ExternalLintCrateRegistry::new();
    registry.register("a", "A");
    registry.record_outcome(0, true);
    registry.record_outcome(0, false);
    assert!(registry.is_retired(0));
    assert_eq!(registry.next_call(0), None);
}

#[test]
fn dispatch_round_retires_faulting_pass() {
    let mut registry: ExternalLintCrateRegistry<(&'static str, Vec<&'static str>)> = ExternalLintCrateRegistry::new();
    registry.register("a", ("A", vec![]));
    registry.register("b", ("B", vec![]));
    registry.register("c", ("C", vec![]));
    for node in ["X", "Y"] {
        let calls = registry.for_each_lint_pass(&|pass: &mut (&'static str, Vec<&'static str>)| {
            pass.1.push(node);
            pass.0 == "A" && node == "X"
        });
        if node == "X" {
            assert_eq!(calls, vec![(0, true), (1, false), (2, false)]);
        } else {
            assert_eq!(calls, vec![(1, false), (2, false)]);
        }
    }
    assert_eq!(registry.pass_mut(0).1, vec!["X"]);
    assert_eq!(registry.pass_mut(1).1, vec!["X", "Y"]);
    assert_eq!(registry.pass_mut(2).1, vec!["X", "Y"]);
    assert!(registry.is_retired(0));
}

#[test]
fn loading_twice_dispatches_both_instances() {
    let mut registry: ExternalLintCrateRegistry<u32> = ExternalLintCrateRegistry::new();
    for _ in 0..2 {
        registry.register("first", 1);
        registry.register("second", 2);
    }
    let calls = registry.for_each_lint_pass(&|p: &mut u32| {
        *p += 10;
        false
    });
    assert_eq!(calls, vec![(0, false), (1, false), (2, false), (3, false)]);
    assert_eq!(*registry.pass_mut(0), 11);
    assert_eq!(*registry.pass_mut(2), 11);
}

#[test]
fn every_faulting_call_retires_every_pass() {
    let mut registry: ExternalLintCrateRegistry<u32> = ExternalLintCrateRegistry::new();
    registry.register("a", 1);
    registry.register("b", 2);
    let calls = registry.for_each_lint_pass(&|_p: &mut u32| true);
    assert_eq!(calls, vec![(0, true), (1, true)]);
    assert!(registry.is_retired(0) && registry.is_retired(1));
    assert!(registry.for_each_lint_pass(&|_p: &mut u32| false).is_empty());
    assert_eq!(*registry.pass(1), 2);
}
