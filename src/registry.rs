//! The registry of lint passes: the check that gates a plugin library before
//! any of its code runs, the passes that plugins register, and the dispatch
//! that retires a pass for the rest of the session once it faults.
//!
//! Opening a library, reading its declaration and calling into it are done by
//! the driver; the registry decides what happens at each step.
use vstd::prelude::*;

verus! {

/// `libloading::Library`, a loaded library, carried as an opaque value.
#[verifier::external_type_specification]
#[verifier::external_body]
pub struct ExLibrary(libloading::Library);

/// The version of the lint interface that this host implements.
pub const LINTER_API_VERSION: &'static str = "0.1.0";

/// The version of the compiler that this host was built with.
pub const RUSTC_VERSION: &'static str = "nightly-2024-02-08";

/// Why a plugin library could not be loaded.
#[derive(Clone, Copy, Debug, PartialEq, Eq, Structural)]
pub enum LoadingError {
    /// The library could not be opened.
    FileNotFound,
    /// The library was built against another interface or compiler version.
    IncompatibleVersion,
    /// The library does not export a lint pass declaration.
    MissingLintDeclaration,
}

/// The versions that a plugin declares it was built with, as read from the
/// declaration that it exports.
#[derive(Clone, Debug)]
pub struct LintPassDeclaration {
    pub linter_api_version: String,
    pub rustc_version: String,
}

impl LintPassDeclaration {
    /// Whether the declaration names the versions that this host was built with.
    pub open spec fn spec_matches_host(self) -> bool {
        self.linter_api_version@ == LINTER_API_VERSION@ && self.rustc_version@ == RUSTC_VERSION@
    }

    pub fn matches_host(&self) -> (r: bool)
        ensures
            r == self.spec_matches_host(),
    {
        let api = LINTER_API_VERSION.to_owned();
        let rustc = RUSTC_VERSION.to_owned();
        self.linter_api_version == api && self.rustc_version == rustc
    }
}

/// The outcome of the checks on a library: register its passes, or refuse it.
pub open spec fn spec_load_decision(opened: bool, decl: Option<LintPassDeclaration>) -> Result<
    (),
    LoadingError,
> {
    if !opened {
        Err(LoadingError::FileNotFound)
    } else {
        match decl {
            None => Err(LoadingError::MissingLintDeclaration),
            Some(d) => if d.spec_matches_host() {
                Ok(())
            } else {
                Err(LoadingError::IncompatibleVersion)
            },
        }
    }
}

/// Decides whether a library may register its passes: it must have been
/// opened, export a declaration, and declare the host's versions. Only on
/// `Ok` may its registration entry point be called.
pub fn load_decision(opened: bool, decl: Option<&LintPassDeclaration>) -> (r: Result<(), LoadingError>)
    ensures
        r == spec_load_decision(
            opened,
            match decl {
                Some(d) => Some(*d),
                None => None,
            },
        ),
{
    if !opened {
        return Err(LoadingError::FileNotFound);
    }
    match decl {
        None => Err(LoadingError::MissingLintDeclaration),
        Some(d) => if d.matches_host() {
            Ok(())
        } else {
            Err(LoadingError::IncompatibleVersion)
        },
    }
}

/// A library whose declaration names other versions than the host's is
/// refused with `IncompatibleVersion`, so its registration entry point is
/// never called.
pub proof fn lemma_version_mismatch_refused(decl: LintPassDeclaration)
    requires
        !decl.spec_matches_host(),
    ensures
        spec_load_decision(true, Some(decl)) == Err::<(), LoadingError>(LoadingError::IncompatibleVersion),
        !(spec_load_decision(true, Some(decl)) is Ok),
{
}

/// Where a plugin hands over the passes that it creates.
pub trait LintPassRegistry<P> {
    spec fn spec_registered(&self) -> Seq<P>;

    /// Takes ownership of a pass, which joins the end of the pass list.
    fn register(&mut self, name: &str, init: P)
        ensures
            final(self).spec_registered() == old(self).spec_registered().push(init),
    ;
}

/// Gives information on the node that was being processed when a pass faulted.
pub trait PanicInfo {
    fn get_info(&self);
}

/// The first pass at or after `from` that is not retired.
pub open spec fn spec_next_call(retired: Seq<bool>, from: int) -> Option<int>
    decreases retired.len() - from,
{
    if from < 0 || from >= retired.len() {
        None
    } else if !retired[from] {
        Some(from)
    } else {
        spec_next_call(retired, from + 1)
    }
}

/// The passes of all loaded plugins, the flags of those that were retired, and
/// the libraries that they came from, which stay loaded as long as the registry.
pub struct ExternalLintCrateRegistry<P> {
    lint_passes: Vec<P>,
    retired: Vec<bool>,
    libs: Vec<libloading::Library>,
}

impl<P> ExternalLintCrateRegistry<P> {
    pub closed spec fn spec_passes(self) -> Seq<P> {
        self.lint_passes@
    }

    /// For each pass, whether it has been retired.
    pub closed spec fn spec_retired(self) -> Seq<bool> {
        self.retired@
    }

    pub closed spec fn spec_lib_count(self) -> nat {
        self.libs@.len()
    }

    /// Well-formed: one retirement flag per pass.
    pub open spec fn wf(self) -> bool {
        self.spec_retired().len() == self.spec_passes().len()
    }

    /// A registry with no passes and no libraries.
    pub fn new() -> (r: Self)
        ensures
            r.wf(),
            r.spec_passes() == Seq::<P>::empty(),
            r.spec_lib_count() == 0,
    {
        ExternalLintCrateRegistry { lint_passes: Vec::new(), retired: Vec::new(), libs: Vec::new() }
    }

    /// Checks a library and, if it may register its passes, keeps it loaded
    /// for as long as the registry lives. The caller runs the library's
    /// registration entry point after an `Ok`, and only then.
    pub fn load_external_lib(
        &mut self,
        lib: Option<libloading::Library>,
        decl: Option<&LintPassDeclaration>,
    ) -> (r: Result<(), LoadingError>)
        ensures
            r == spec_load_decision(
                lib is Some,
                match decl {
                    Some(d) => Some(*d),
                    None => None,
                },
            ),
            final(self).spec_passes() == old(self).spec_passes(),
            final(self).spec_retired() == old(self).spec_retired(),
            final(self).spec_lib_count() == old(self).spec_lib_count() + if r is Ok {
                1nat
            } else {
                0nat
            },
    {
        let r = load_decision(lib.is_some(), decl);
        if r.is_ok() {
            match lib {
                Some(l) => self.libs.push(l),
                None => {},
            }
        }
        r
    }

    /// The number of passes, retired ones included.
    pub fn pass_count(&self) -> (r: usize)
        ensures
            r == self.spec_passes().len(),
    {
        self.lint_passes.len()
    }

    /// Whether the pass at `index` has been retired.
    pub fn is_retired(&self, index: usize) -> (r: bool)
        requires
            self.wf(),
            index < self.spec_passes().len(),
        ensures
            r == self.spec_retired()[index as int],
    {
        self.retired[index]
    }

    /// The next pass to hand the current node to: the first one at or after
    /// `from` that is not retired, or `None` when the node is done.
    pub fn next_call(&self, from: usize) -> (r: Option<usize>)
        requires
            self.wf(),
        ensures
            match r {
                Some(i) => spec_next_call(self.spec_retired(), from as int) == Some(i as int),
                None => spec_next_call(self.spec_retired(), from as int) is None,
            },
    {
        let mut i = from;
        while i < self.retired.len()
            invariant
                from <= i,
                spec_next_call(self.spec_retired(), from as int) == spec_next_call(
                    self.spec_retired(),
                    i as int,
                ),
            decreases self.retired@.len() - i,
        {
            if !self.retired[i] {
                return Some(i);
            }
            i += 1;
        }
        None
    }

    /// The pass at `index`.
    pub fn pass(&self, index: usize) -> (r: &P)
        requires
            index < self.spec_passes().len(),
        ensures
            *r == self.spec_passes()[index as int],
    {
        &self.lint_passes[index]
    }

    /// The pass at `index`, to be called on the current node.
    pub fn pass_mut(&mut self, index: usize) -> (r: &mut P)
        requires
            index < old(self).spec_passes().len(),
        ensures
            *r == old(self).spec_passes()[index as int],
            final(self).spec_passes() == old(self).spec_passes().update(index as int, *final(r)),
            final(self).spec_retired() == old(self).spec_retired(),
            final(self).spec_lib_count() == old(self).spec_lib_count(),
    {
        &mut self.lint_passes[index]
    }

    /// Records the outcome of a call: a pass that faulted is retired and is
    /// never handed a node again in this session. Nothing else changes.
    pub fn record_outcome(&mut self, index: usize, faulted: bool)
        requires
            old(self).wf(),
            index < old(self).spec_passes().len(),
        ensures
            final(self).wf(),
            final(self).spec_retired() == old(self).spec_retired().update(
                index as int,
                old(self).spec_retired()[index as int] || faulted,
            ),
            final(self).spec_passes() == old(self).spec_passes(),
            final(self).spec_lib_count() == old(self).spec_lib_count(),
    {
        if faulted {
            self.retired.set(index, true);
        }
        proof {
            assert(self.retired@ =~= old(self).retired@.update(
                index as int,
                old(self).retired@[index as int] || faulted,
            ));
        }
    }
}

impl<P> ExternalLintCrateRegistry<P> {
    /// Hands the current node to every pass that is not retired, one at a time
    /// and in order, through `call`, which runs the pass behind a fault
    /// boundary and returns whether it faulted. A pass that faults is retired
    /// and is never handed a node again; the passes after it still get this
    /// one. Returns each call made: the pass and whether it faulted.
    pub fn for_each_lint_pass<F: Fn(&mut P) -> bool>(&mut self, call: &F) -> (calls: Vec<(usize, bool)>)
        requires
            old(self).wf(),
            forall|p: &mut P| call.requires((p,)),
        ensures
            final(self).wf(),
            dispatch_round(old(self).spec_retired(), calls@, final(self).spec_retired()),
            forall|k: int|
                #![trigger calls@[k]]
                0 <= k < calls@.len() ==> called(
                    *call,
                    old(self).spec_passes()[calls@[k].0 as int],
                    calls@[k].1,
                ),
            final(self).spec_passes().len() == old(self).spec_passes().len(),
            forall|j: int|
                0 <= j < old(self).spec_passes().len() && old(self).spec_retired()[j]
                    ==> final(self).spec_passes()[j] == old(self).spec_passes()[j],
            final(self).spec_lib_count() == old(self).spec_lib_count(),
    {
        let ghost before = self.spec_retired();
        let mut calls: Vec<(usize, bool)> = Vec::new();
        let mut i: usize = 0;
        let n = self.lint_passes.len();
        while i < n
            invariant
                n == self.lint_passes@.len(),
                n == old(self).lint_passes@.len(),
                self.wf(),
                before == old(self).spec_retired(),
                before.len() == n,
                0 <= i <= n,
                forall|p: &mut P| call.requires((p,)),
                call_indices(calls@) + active_from(before, i as int) == active_from(before, 0),
                forall|k: int|
                    0 <= k < calls@.len() ==> (#[trigger] calls@[k]).0 < i && self.retired@[calls@[k].0 as int]
                        == calls@[k].1,
                forall|j: int|
                    0 <= j < n && (before[j] || j >= i) ==> self.retired@[j] == before[j],
                forall|j: int|
                    0 <= j < n && (before[j] || j >= i) ==> self.lint_passes@[j] == old(self).lint_passes@[j],
                forall|k: int|
                    #![trigger calls@[k]]
                    0 <= k < calls@.len() ==> called(
                        *call,
                        old(self).lint_passes@[calls@[k].0 as int],
                        calls@[k].1,
                    ),
                self.libs@ == old(self).libs@,
            decreases n - i,
        {
            let ghost prev = calls@;
            proof {
                assert(active_from(before, i as int) == if before[i as int] {
                    active_from(before, i + 1)
                } else {
                    seq![i as int] + active_from(before, i + 1)
                });
            }
            if !self.retired[i] {
                let ghost pass = self.lint_passes@[i as int];
                let ghost passes_before = self.lint_passes@;
                let faulted = call(&mut self.lint_passes[i]);
                proof {
                    assert(called(*call, pass, faulted));
                    assert(self.lint_passes@.len() == n);
                    assert(self.lint_passes@ =~= passes_before.update(i as int, self.lint_passes@[i as int]));
                    assert(forall|j: int|
                        0 <= j < n && (before[j] || j >= i) ==> passes_before[j] == old(self).lint_passes@[j]);
                    assert forall|j: int|
                        0 <= j < n && (before[j] || j >= i + 1) implies #[trigger] self.lint_passes@[j] == old(
                        self,
                    ).lint_passes@[j] by {
                        assert(j != i);
                        assert(self.lint_passes@[j] == passes_before.update(i as int, self.lint_passes@[i as int])[j]);
                        assert(passes_before[j] == old(self).lint_passes@[j]);
                    }
                }
                if faulted {
                    self.retired.set(i, true);
                }
                calls.push((i, faulted));
                assert(forall|j: int|
                    0 <= j < n && (before[j] || j >= i + 1) ==> #[trigger] self.lint_passes@[j] == old(
                        self,
                    ).lint_passes@[j]);
                proof {
                    assert(call_indices(calls@) =~= call_indices(prev).push(i as int));
                    assert(call_indices(calls@) + active_from(before, i + 1) =~= call_indices(prev) + (
                    seq![i as int] + active_from(before, i + 1)));
                    assert forall|k: int|
                        0 <= k < calls@.len() implies (#[trigger] calls@[k]).0 < i + 1
                            && self.retired@[calls@[k].0 as int] == calls@[k].1 && called(
                            *call,
                            old(self).lint_passes@[calls@[k].0 as int],
                            calls@[k].1,
                        ) by {
                        if k < prev.len() {
                            assert(calls@[k] == prev[k]);
                        }
                    }
                }
            } else {
                assert(forall|j: int|
                    0 <= j < n && (before[j] || j >= i + 1) ==> #[trigger] self.lint_passes@[j] == old(
                        self,
                    ).lint_passes@[j]);
            }
            i += 1;
        }
        proof {
            assert(active_from(before, n as int) =~= Seq::<int>::empty());
            assert(call_indices(calls@) =~= active_from(before, 0));
        }
        calls
    }
}

impl<P> LintPassRegistry<P> for ExternalLintCrateRegistry<P> {
    open spec fn spec_registered(&self) -> Seq<P> {
        self.spec_passes()
    }

    fn register(&mut self, name: &str, init: P)
        ensures
            final(self).spec_retired() == old(self).spec_retired().push(false),
            final(self).spec_lib_count() == old(self).spec_lib_count(),
    {
        self.lint_passes.push(init);
        self.retired.push(false);
    }
}

/// A retired pass is never chosen again: from any position, the next call
/// goes to another pass, and recording any outcome keeps it retired.
pub proof fn lemma_retired_never_called(retired: Seq<bool>, pass: int, from: int, other: int, faulted: bool)
    requires
        0 <= pass < retired.len(),
        retired[pass],
        0 <= other < retired.len(),
    ensures
        spec_next_call(retired, from) != Some(pass),
        retired.update(other, retired[other] || faulted)[pass],
    decreases retired.len() - from,
{
    if 0 <= from < retired.len() && retired[from] {
        lemma_retired_never_called(retired, pass, from + 1, other, faulted);
    }
}

/// Registering the same pass twice keeps both: each gets its own place in the
/// pass list, and each is dispatched on its own.
pub proof fn lemma_no_deduplication<P>(
    passes: Seq<P>,
    retired: Seq<bool>,
    pass: P,
)
    requires
        passes.len() == retired.len(),
    ensures
        passes.push(pass).push(pass).len() == passes.len() + 2,
        passes.push(pass).push(pass)[passes.len() as int] == pass,
        passes.push(pass).push(pass)[passes.len() as int + 1] == pass,
        spec_next_call(retired.push(false).push(false), passes.len() as int) == Some(
            passes.len() as int,
        ),
        spec_next_call(retired.push(false).push(false), passes.len() as int + 1) == Some(
            passes.len() as int + 1,
        ),
{
}

/// The passes at or after `from` that are not retired, in order.
pub open spec fn active_from(retired: Seq<bool>, from: int) -> Seq<int>
    decreases retired.len() - from,
{
    if from < 0 || from >= retired.len() {
        Seq::empty()
    } else if retired[from] {
        active_from(retired, from + 1)
    } else {
        seq![from] + active_from(retired, from + 1)
    }
}

/// The passes of a trace of calls, in order.
pub open spec fn call_indices(calls: Seq<(usize, bool)>) -> Seq<int> {
    calls.map_values(|c: (usize, bool)| c.0 as int)
}

/// One round of dispatch of a node: the calls went to exactly the passes that
/// were not retired, in order; a pass that faulted is retired after; the
/// others keep their flag.
pub open spec fn dispatch_round(before: Seq<bool>, calls: Seq<(usize, bool)>, after: Seq<bool>) -> bool {
    &&& after.len() == before.len()
    &&& call_indices(calls) == active_from(before, 0)
    &&& forall|k: int| 0 <= k < calls.len() ==> after[(#[trigger] calls[k]).0 as int] == calls[k].1
    &&& forall|j: int| 0 <= j < before.len() && before[j] ==> after[j]
}

/// A pass is among the active ones at or after `from` exactly when it is at or
/// after `from` and not retired.
pub proof fn lemma_active_from(retired: Seq<bool>, from: int, j: int)
    requires
        0 <= from,
    ensures
        active_from(retired, from).contains(j) <==> (from <= j < retired.len() && !retired[j]),
    decreases retired.len() - from,
{
    if from < retired.len() {
        lemma_active_from(retired, from + 1, j);
        if !retired[from] {
            let rest = active_from(retired, from + 1);
            assert((seq![from] + rest).contains(j) <==> (j == from || rest.contains(j))) by {
                if (seq![from] + rest).contains(j) {
                    let k = choose|k: int| 0 <= k < (seq![from] + rest).len() && (seq![from] + rest)[k] == j;
                    if k > 0 {
                        assert(rest[k - 1] == j);
                    }
                }
                if rest.contains(j) {
                    let k = choose|k: int| 0 <= k < rest.len() && rest[k] == j;
                    assert((seq![from] + rest)[k + 1] == j);
                }
                if j == from {
                    assert((seq![from] + rest)[0] == j);
                }
            }
        }
    }
}

/// A pass that faults on one node is retired, and no later node is handed to
/// it: in the next round no call goes to it.
pub proof fn lemma_faulting_pass_skipped_later(
    r0: Seq<bool>,
    calls1: Seq<(usize, bool)>,
    r1: Seq<bool>,
    calls2: Seq<(usize, bool)>,
    r2: Seq<bool>,
    k: int,
)
    requires
        dispatch_round(r0, calls1, r1),
        dispatch_round(r1, calls2, r2),
        0 <= k < calls1.len(),
        calls1[k].1,
    ensures
        forall|m: int| 0 <= m < calls2.len() ==> (#[trigger] calls2[m]).0 != calls1[k].0,
        r2[calls1[k].0 as int],
{
    let p = calls1[k].0 as int;
    assert(call_indices(calls1)[k] == p);
    lemma_active_from(r0, 0, p);
    assert(active_from(r0, 0).contains(p));
    assert(r1[p]);
    assert forall|m: int| 0 <= m < calls2.len() implies (#[trigger] calls2[m]).0 != calls1[k].0 by {
        let q = calls2[m].0 as int;
        assert(call_indices(calls2)[m] == q);
        lemma_active_from(r1, 0, q);
        assert(active_from(r1, 0).contains(q));
    }
}

/// A plugin's passes are appended as passes of their own, in order, whatever
/// passes are there already (those of an earlier load of the same plugin
/// included), and each one is dispatched.
pub proof fn lemma_registered_passes_dispatched<P>(passes: Seq<P>, retired: Seq<bool>, added: Seq<P>)
    requires
        passes.len() == retired.len(),
    ensures
        (passes + added).len() == passes.len() + added.len(),
        forall|i: int| 0 <= i < added.len() ==> (passes + added)[passes.len() + i] == added[i],
        forall|i: int|
            0 <= i < added.len() ==> active_from(
                retired + Seq::new(added.len(), |x: int| false),
                0,
            ).contains(#[trigger] (passes.len() + i)),
{
    let all = retired + Seq::new(added.len(), |x: int| false);
    assert forall|i: int| 0 <= i < added.len() implies active_from(all, 0).contains(
        #[trigger] (passes.len() + i),
    ) by {
        lemma_active_from(all, 0, passes.len() + i);
        assert(!all[passes.len() + i]);
    }
}

/// Whether `call` may have returned `faulted` when handed a reference to `pass`.
pub open spec fn called<P, F: Fn(&mut P) -> bool>(call: F, pass: P, faulted: bool) -> bool {
    exists|p: &mut P| *p == pass && #[trigger] call.ensures((p,), faulted)
}

/// When every call of a round faults, every pass is retired after it.
pub proof fn lemma_all_faulting_all_retired(before: Seq<bool>, calls: Seq<(usize, bool)>, after: Seq<bool>)
    requires
        dispatch_round(before, calls, after),
        forall|k: int| 0 <= k < calls.len() ==> (#[trigger] calls[k]).1,
    ensures
        forall|j: int| 0 <= j < after.len() ==> #[trigger] after[j],
{
    assert forall|j: int| 0 <= j < after.len() implies #[trigger] after[j] by {
        if !before[j] {
            lemma_active_from(before, 0, j);
            let k = choose|k: int| 0 <= k < active_from(before, 0).len() && active_from(before, 0)[k] == j;
            assert(call_indices(calls)[k] == j);
            assert(calls[k].0 as int == j);
            assert(calls[k].1);
        }
    }
}

} // verus!
