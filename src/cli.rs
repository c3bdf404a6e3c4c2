//! Reading the driver's command line and the list of plugin paths.
use vstd::prelude::*;
use vstd::string::{StrSliceExecFns, StringExecFns};

verus! {

/// Whether two strings hold the same characters.
pub(crate) fn str_equal(a: &str, b: &str) -> (r: bool)
    ensures
        r == (a@ == b@),
{
    let n = a.unicode_len();
    if n != b.unicode_len() {
        return false;
    }
    let mut i: usize = 0;
    while i < n
        invariant
            n == a@.len(),
            n == b@.len(),
            0 <= i <= n,
            forall|j: int| 0 <= j < i ==> a@[j] == b@[j],
        decreases n - i,
    {
        if a.get_char(i) != b.get_char(i) {
            return false;
        }
        i += 1;
    }
    assert(a@ =~= b@);
    true
}

/// The position of the first `c` at or after `from` in `s`, or its length if there is none.
pub open spec fn first_index_of(s: Seq<char>, c: char, from: int) -> int
    decreases s.len() - from,
{
    if from < 0 || from >= s.len() {
        s.len() as int
    } else if s[from] == c {
        from
    } else {
        first_index_of(s, c, from + 1)
    }
}

proof fn lemma_first_index_bounds(s: Seq<char>, c: char, from: int)
    requires
        0 <= from <= s.len(),
    ensures
        from <= first_index_of(s, c, from) <= s.len(),
    decreases s.len() - from,
{
    if from < s.len() && s[from] != c {
        lemma_first_index_bounds(s, c, from + 1);
    }
}

fn first_index(s: &str, c: char) -> (r: usize)
    ensures
        r == first_index_of(s@, c, 0),
{
    let n = s.unicode_len();
    let mut i: usize = 0;
    while i < n
        invariant
            n == s@.len(),
            0 <= i <= n,
            first_index_of(s@, c, 0) == first_index_of(s@, c, i as int),
        decreases n - i,
    {
        if s.get_char(i) == c {
            return i;
        }
        i += 1;
    }
    i
}

/// The values that a search for the option `find` looks at, in order: for
/// each argument whose part before the first `=` is `find`, the part after the
/// `=`, or, where there is no `=`, the argument that follows, which is then
/// not read as an option itself.
pub open spec fn arg_candidates(args: Seq<Seq<char>>, find: Seq<char>) -> Seq<Seq<char>>
    decreases args.len(),
{
    if args.len() == 0 {
        Seq::empty()
    } else {
        let a = args[0];
        let p = first_index_of(a, '=', 0);
        if a.subrange(0, p) != find {
            arg_candidates(args.drop_first(), find)
        } else if p < a.len() {
            seq![a.subrange(p + 1, a.len() as int)] + arg_candidates(args.drop_first(), find)
        } else if args.len() >= 2 {
            seq![args[1]] + arg_candidates(args.subrange(2, args.len() as int), find)
        } else {
            Seq::empty()
        }
    }
}

/// The characters of each argument.
pub open spec fn arg_views(args: Seq<&str>) -> Seq<Seq<char>> {
    args.map_values(|s: &str| s@)
}

/// Whether `pred` may have rejected a value with the characters `c`.
pub open spec fn rejected<F: Fn(&str) -> bool>(pred: F, c: Seq<char>) -> bool {
    exists|s: &str| s@ == c && pred.ensures((s,), false)
}

/// Looks for the option `find_arg`, given as `--arg=value` or `--arg value`,
/// and returns the first of its values that `pred` accepts.
pub fn arg_value<'a, F: Fn(&str) -> bool>(args: &'a [&'a str], find_arg: &str, pred: F) -> (r: Option<
    &'a str,
>)
    requires
        forall|s: &str| pred.requires((s,)),
    ensures
        match r {
            Some(v) => exists|k: int|
                0 <= k < arg_candidates(arg_views(args@), find_arg@).len() && arg_candidates(arg_views(args@), find_arg@)[k]
                    == v@ && pred.ensures((v,), true) && forall|j: int|
                    0 <= j < k ==> rejected(pred, #[trigger] arg_candidates(arg_views(args@), find_arg@)[j]),
            None => forall|j: int|
                0 <= j < arg_candidates(arg_views(args@), find_arg@).len() ==> rejected(
                    pred,
                    #[trigger] arg_candidates(arg_views(args@), find_arg@)[j],
                ),
        },
{
    let ghost all = arg_candidates(arg_views(args@), find_arg@);
    let ghost mut done: Seq<Seq<char>> = Seq::empty();
    let n = args.len();
    let mut i: usize = 0;
    assert(arg_views(args@).subrange(0, n as int) =~= arg_views(args@));
    assert(all =~= done + all);
    while i < n
        invariant
            n == args@.len(),
            0 <= i <= n,
            forall|s: &str| pred.requires((s,)),
            all == arg_candidates(arg_views(args@), find_arg@),
            all == done + arg_candidates(arg_views(args@).subrange(i as int, n as int), find_arg@),
            forall|j: int| 0 <= j < done.len() ==> rejected(pred, #[trigger] done[j]),
        decreases n - i,
    {
        let ghost rest = arg_views(args@).subrange(i as int, n as int);
        assert(rest.drop_first() =~= arg_views(args@).subrange(i + 1, n as int));
        assert(rest[0] == args@[i as int]@);
        let arg: &'a str = args[i];
        let len = arg.unicode_len();
        let p = first_index(arg, '=');
        proof {
            lemma_first_index_bounds(arg@, '=', 0);
        }
        let key = arg.substring_char(0, p);
        if !str_equal(key, find_arg) {
            i += 1;
        } else {
            let value: Option<&'a str> = if p < len {
                Some(arg.substring_char(p + 1, len))
            } else if i + 1 < n {
                assert(rest.subrange(2, rest.len() as int) =~= arg_views(args@).subrange(i + 2, n as int));
                assert(rest[1] == args@[i + 1]@);
                i += 1;
                Some(args[i])
            } else {
                None
            };
            i += 1;
            match value {
                Some(v) => {
                    let accepted = pred(v);
                    if accepted {
                        assert(all[done.len() as int] == v@);
                        return Some(v);
                    }
                    proof {
                        assert(rejected(pred, v@));
                        done = done.push(v@);
                        assert(all =~= done + arg_candidates(arg_views(args@).subrange(i as int, n as int), find_arg@));
                    }
                },
                None => {
                    proof {
                        assert(all =~= done);
                        assert(arg_views(args@).subrange(i as int, n as int) =~= Seq::<Seq<char>>::empty());
                    }
                },
            }
        }
    }
    assert(arg_views(args@).subrange(i as int, n as int) =~= Seq::<Seq<char>>::empty());
    assert(all =~= done);
    None
}

/// The pieces of `s` between the occurrences of `sep`, in order. A string
/// without `sep` is one piece; an empty string is one empty piece.
pub open spec fn split_on(s: Seq<char>, sep: char) -> Seq<Seq<char>>
    decreases s.len(),
{
    if s.len() == 0 {
        seq![Seq::empty()]
    } else {
        let init = split_on(s.drop_last(), sep);
        if s.last() == sep {
            init.push(Seq::empty())
        } else {
            init.update(init.len() - 1, init.last().push(s.last()))
        }
    }
}

proof fn lemma_split_on_nonempty(s: Seq<char>, sep: char)
    ensures
        split_on(s, sep).len() >= 1,
    decreases s.len(),
{
    if s.len() > 0 {
        lemma_split_on_nonempty(s.drop_last(), sep);
    }
}

/// Splits a list of plugin paths at each `;`; the paths themselves cannot
/// hold a `;`.
pub fn split_lint_crate_paths<'a>(list: &'a str) -> (r: Vec<&'a str>)
    ensures
        r@.map_values(|p: &str| p@) == split_on(list@, ';'),
{
    let n = list.unicode_len();
    let mut pieces: Vec<&'a str> = Vec::new();
    let mut start: usize = 0;
    let mut i: usize = 0;
    proof {
        let e = list@.subrange(0, 0);
        assert(e =~= Seq::<char>::empty());
        assert(pieces@.map_values(|p: &str| p@).push(list@.subrange(0, 0)) =~= split_on(e, ';'));
    }
    while i < n
        invariant
            n == list@.len(),
            0 <= start <= i <= n,
            split_on(list@.subrange(0, i as int), ';') == pieces@.map_values(|p: &str| p@).push(
                list@.subrange(start as int, i as int),
            ),
        decreases n - i,
    {
        let ghost prefix = list@.subrange(0, i as int + 1);
        assert(prefix.drop_last() =~= list@.subrange(0, i as int));
        let c = list.get_char(i);
        if c == ';' {
            let piece = list.substring_char(start, i);
            pieces.push(piece);
            start = i + 1;
            proof {
                assert(list@.subrange(start as int, i as int + 1) =~= Seq::<char>::empty());
            }
        } else {
            proof {
                assert(list@.subrange(start as int, i as int + 1) =~= list@.subrange(
                    start as int,
                    i as int,
                ).push(c));
            }
        }
        i += 1;
        proof {
            assert(split_on(list@.subrange(0, i as int), ';') =~= pieces@.map_values(
                |p: &str| p@,
            ).push(list@.subrange(start as int, i as int)));
        }
    }
    let last = list.substring_char(start, n);
    pieces.push(last);
    proof {
        assert(list@.subrange(0, n as int) =~= list@);
    }
    pieces
}

/// The pieces joined into one string, with `sep` between each two.
pub open spec fn join_on(pieces: Seq<Seq<char>>, sep: char) -> Seq<char>
    decreases pieces.len(),
{
    if pieces.len() == 0 {
        Seq::empty()
    } else if pieces.len() == 1 {
        pieces[0]
    } else {
        join_on(pieces.drop_last(), sep) + seq![sep] + pieces.last()
    }
}

proof fn lemma_split_append_piece(front: Seq<char>, sep: char, piece: Seq<char>)
    requires
        !piece.contains(sep),
    ensures
        split_on(front + seq![sep] + piece, sep) == split_on(front, sep).push(piece),
    decreases piece.len(),
{
    lemma_split_on_nonempty(front, sep);
    if piece.len() == 0 {
        assert(piece =~= Seq::<char>::empty());
        assert(front + seq![sep] + piece =~= front.push(sep));
        assert((front + seq![sep] + piece).drop_last() =~= front);
        assert((front + seq![sep] + piece).last() == sep);
    } else {
        let shorter = piece.drop_last();
        assert(!shorter.contains(sep)) by {
            if shorter.contains(sep) {
                let k = choose|k: int| 0 <= k < shorter.len() && shorter[k] == sep;
                assert(piece[k] == sep);
            }
        }
        lemma_split_append_piece(front, sep, shorter);
        let whole = front + seq![sep] + piece;
        assert(whole.drop_last() =~= front + seq![sep] + shorter);
        assert(whole.last() == piece.last());
        assert(piece.last() != sep) by {
            assert(piece[piece.len() - 1] == piece.last());
        }
        assert(shorter.push(piece.last()) =~= piece);
        assert(split_on(whole, sep) =~= split_on(front, sep).push(piece));
    }
}

proof fn lemma_split_single_piece(piece: Seq<char>, sep: char)
    requires
        !piece.contains(sep),
    ensures
        split_on(piece, sep) == seq![piece],
    decreases piece.len(),
{
    if piece.len() == 0 {
        assert(piece =~= Seq::<char>::empty());
        assert(split_on(piece, sep) =~= seq![piece]);
    } else {
        let shorter = piece.drop_last();
        assert(!shorter.contains(sep)) by {
            if shorter.contains(sep) {
                let k = choose|k: int| 0 <= k < shorter.len() && shorter[k] == sep;
                assert(piece[k] == sep);
            }
        }
        lemma_split_single_piece(shorter, sep);
        assert(piece.last() != sep) by {
            assert(piece[piece.len() - 1] == piece.last());
        }
        assert(shorter.push(piece.last()) =~= piece);
        assert(split_on(piece, sep) =~= seq![piece]);
    }
}

/// Splitting joined paths gives the paths back, as long as there is at least
/// one and none of them holds the separator.
pub proof fn lemma_split_join(pieces: Seq<Seq<char>>, sep: char)
    requires
        pieces.len() >= 1,
        forall|i: int| 0 <= i < pieces.len() ==> !(#[trigger] pieces[i]).contains(sep),
    ensures
        split_on(join_on(pieces, sep), sep) == pieces,
    decreases pieces.len(),
{
    if pieces.len() == 1 {
        lemma_split_single_piece(pieces[0], sep);
        assert(seq![pieces[0]] =~= pieces);
    } else {
        let init = pieces.drop_last();
        assert forall|i: int| 0 <= i < init.len() implies !(#[trigger] init[i]).contains(sep) by {
            assert(init[i] == pieces[i]);
        }
        lemma_split_join(init, sep);
        assert(!pieces.last().contains(sep)) by {
            assert(pieces[pieces.len() - 1] == pieces.last());
        }
        lemma_split_append_piece(join_on(init, sep), sep, pieces.last());
        assert(init.push(pieces.last()) =~= pieces);
    }
}

/// Joins the paths of the built lint crates into the list that the driver
/// reads, with `;` between each two.
pub fn join_lint_crate_paths(paths: &Vec<String>) -> (r: String)
    ensures
        r@ == join_on(paths@.map_values(|p: String| p@), ';'),
{
    let ghost views = paths@.map_values(|p: String| p@);
    let mut joined = String::new();
    let mut i: usize = 0;
    while i < paths.len()
        invariant
            0 <= i <= paths@.len(),
            views == paths@.map_values(|p: String| p@),
            joined@ == join_on(views.subrange(0, i as int), ';'),
        decreases paths@.len() - i,
    {
        let ghost before = joined@;
        if i > 0 {
            proof {
                reveal_strlit(";");
            }
            joined.append(";");
        }
        joined.append(paths[i].as_str());
        proof {
            let next = views.subrange(0, i as int + 1);
            assert(next.drop_last() =~= views.subrange(0, i as int));
            assert(next.last() == paths@[i as int]@);
            if i == 0 {
                assert(joined@ =~= next[0]);
            } else {
                assert(joined@ =~= before + seq![';'] + next.last());
            }
        }
        i += 1;
    }
    assert(views.subrange(0, i as int) =~= views);
    joined
}

/// Whether some path holds a `;`, which the list of paths cannot carry.
pub open spec fn some_path_has_separator(paths: Seq<String>) -> bool {
    exists|i: int| 0 <= i < paths.len() && (#[trigger] paths[i])@.contains(';')
}

pub(crate) fn contains_char(s: &str, c: char) -> (r: bool)
    ensures
        r == s@.contains(c),
{
    let n = s.unicode_len();
    let mut i: usize = 0;
    while i < n
        invariant
            n == s@.len(),
            0 <= i <= n,
            forall|j: int| 0 <= j < i ==> s@[j] != c,
        decreases n - i,
    {
        if s.get_char(i) == c {
            return true;
        }
        i += 1;
    }
    false
}

/// Checks the lint crate paths before they are built: there must be at least
/// one, and none may hold a `;`.
pub fn check_lint_crate_paths(paths: &Vec<String>) -> (r: Result<(), ExitStatus>)
    ensures
        r == if paths@.len() == 0 {
            Err(ExitStatus::NoLints)
        } else if some_path_has_separator(paths@) {
            Err(ExitStatus::InvalidValue)
        } else {
            Ok::<(), ExitStatus>(())
        },
{
    if paths.len() == 0 {
        return Err(ExitStatus::NoLints);
    }
    let mut i: usize = 0;
    while i < paths.len()
        invariant
            0 <= i <= paths@.len(),
            forall|j: int| 0 <= j < i ==> !(#[trigger] paths@[j])@.contains(';'),
        decreases paths@.len() - i,
    {
        if contains_char(paths[i].as_str(), ';') {
            return Err(ExitStatus::InvalidValue);
        }
        i += 1;
    }
    Ok(())
}

/// Picks the lint crates to check: those given on the command line, else those
/// of the configuration (or its error), else none, which is an error.
pub fn choose_lint_crates(
    cli_lints: Option<Vec<String>>,
    config_lints: Option<Result<Vec<String>, ExitStatus>>,
) -> (r: Result<Vec<String>, ExitStatus>)
    ensures
        r == match cli_lints {
            Some(v) => Ok(v),
            None => match config_lints {
                Some(c) => c,
                None => Err(ExitStatus::NoLints),
            },
        },
{
    match cli_lints {
        Some(v) => Ok(v),
        None => match config_lints {
            Some(c) => c,
            None => Err(ExitStatus::NoLints),
        },
    }
}

/// The reasons for which the command-line front end exits.
#[derive(Clone, Copy, Debug, PartialEq, Eq, Structural)]
pub enum ExitStatus {
    /// The toolchain could not be validated.
    InvalidToolchain,
    /// The driver binary could not be found.
    MissingDriver,
    /// Installing the driver failed.
    DriverInstallationFailed,
    /// The driver failed.
    DriverFailed,
    /// A lint crate could not be built.
    LintCrateBuildFail,
    /// A lint crate could not be found.
    LintCrateNotFound,
    /// A lint crate was built, but its library could not be found.
    LintCrateLibNotFound,
    /// The configuration is wrong.
    BadConfiguration,
    /// No lint crates were given, so there is nothing to do.
    NoLints,
    /// The lint list in the configuration has the wrong structure.
    WrongStructure,
    /// A configuration value is invalid.
    InvalidValue,
    /// The check failed.
    MarkerCheckFailed,
}

impl ExitStatus {
    pub open spec fn spec_code(self) -> i32 {
        match self {
            ExitStatus::InvalidToolchain => 100,
            ExitStatus::MissingDriver => 200,
            ExitStatus::DriverInstallationFailed => 300,
            ExitStatus::DriverFailed => 400,
            ExitStatus::LintCrateBuildFail => 500,
            ExitStatus::LintCrateNotFound => 501,
            ExitStatus::LintCrateLibNotFound => 502,
            ExitStatus::BadConfiguration => 600,
            ExitStatus::NoLints => 601,
            ExitStatus::WrongStructure => 602,
            ExitStatus::InvalidValue => 603,
            ExitStatus::MarkerCheckFailed => 1000,
        }
    }

    /// The process exit code for this status.
    pub fn code(&self) -> (r: i32)
        ensures
            r == self.spec_code(),
    {
        match self {
            ExitStatus::InvalidToolchain => 100,
            ExitStatus::MissingDriver => 200,
            ExitStatus::DriverInstallationFailed => 300,
            ExitStatus::DriverFailed => 400,
            ExitStatus::LintCrateBuildFail => 500,
            ExitStatus::LintCrateNotFound => 501,
            ExitStatus::LintCrateLibNotFound => 502,
            ExitStatus::BadConfiguration => 600,
            ExitStatus::NoLints => 601,
            ExitStatus::WrongStructure => 602,
            ExitStatus::InvalidValue => 603,
            ExitStatus::MarkerCheckFailed => 1000,
        }
    }
}

} // verus!
