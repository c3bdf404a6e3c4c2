//! Attributes and the token streams that they carry.
use vstd::prelude::*;
use crate::ids::{SpanId, SymbolId};
use crate::source::{SourceAttrKind, SourceAttribute};

verus! {

/// `proc_macro2::TokenStream`, carried as an opaque value.
#[verifier::external_type_specification]
#[verifier::external_body]
pub struct ExTokenStream(proc_macro2::TokenStream);

/// Relies on `proc_macro2::TokenStream::from_str` to parse the text into
/// tokens. Nothing is promised of the outcome: it depends on which lexer the
/// process uses (the compiler's inside a procedural macro, proc-macro2's own
/// elsewhere), and the crate documents that some bad input may panic.
#[verifier::external_body]
fn parse_token_stream(text: &str) -> Result<proc_macro2::TokenStream, ()> {
    <proc_macro2::TokenStream as std::str::FromStr>::from_str(text).map_err(|_| ())
}

/// A token tree used by macros and attributes: its text, and its structured
/// form, which is parsed on first access and then kept, failure included.
#[derive(Debug)]
pub struct MacroTokenStream {
    string_repr: String,
    parsed: Option<Result<proc_macro2::TokenStream, ()>>,
}

impl MacroTokenStream {
    pub closed spec fn spec_text(self) -> Seq<char> {
        self.string_repr@
    }

    /// The outcome of the parse, once it has run.
    pub closed spec fn spec_parsed(self) -> Option<Result<proc_macro2::TokenStream, ()>> {
        self.parsed
    }

    /// A token stream of the given text, not parsed yet.
    pub fn new(string_repr: String) -> (r: Self)
        ensures
            r.spec_text() == string_repr@,
            r.spec_parsed() is None,
    {
        MacroTokenStream { string_repr, parsed: None }
    }

    /// The text of the tokens.
    pub fn as_str_repr(&self) -> (r: &str)
        ensures
            r@ == self.spec_text(),
    {
        self.string_repr.as_str()
    }

    /// The tokens as a `proc_macro2` stream, or `Err` if the text does not lex.
    /// The parse runs on the first call only; later calls return its kept
    /// outcome and leave the stream as it is.
    pub fn as_proc_macro2_repr(&mut self) -> (r: &Result<proc_macro2::TokenStream, ()>)
        ensures
            memo_access(*old(self), *final(self)),
            final(self).spec_parsed() == Some(*r),
    {
        if self.parsed.is_none() {
            let parsed = parse_token_stream(self.string_repr.as_str());
            self.parsed = Some(parsed);
        }
        self.parsed.as_ref().unwrap()
    }
}

/// One access to the structured form of a token stream, from `before` to
/// `after`: the text stays, the outcome is kept, and a stream that was already
/// parsed stays as it is.
pub open spec fn memo_access(before: MacroTokenStream, after: MacroTokenStream) -> bool {
    &&& after.spec_text() == before.spec_text()
    &&& after.spec_parsed() is Some
    &&& before.spec_parsed() is Some ==> after == before
}

/// Over any number of accesses, the parse runs at most once: from the first
/// access on, the stream, with its kept outcome, never changes.
pub proof fn lemma_parsed_at_most_once(states: Seq<MacroTokenStream>)
    requires
        forall|i: int| 0 <= i < states.len() - 1 ==> #[trigger] memo_access(states[i], states[i + 1]),
    ensures
        forall|i: int| 1 <= i < states.len() ==> #[trigger] states[i] == states[1],
        forall|i: int| 0 <= i < states.len() ==> #[trigger] states[i].spec_text() == states[0].spec_text(),
    decreases states.len(),
{
    if states.len() > 2 {
        let init = states.drop_last();
        assert forall|i: int| 0 <= i < init.len() - 1 implies #[trigger] memo_access(init[i], init[i + 1]) by {
            assert(memo_access(states[i], states[i + 1]));
        }
        lemma_parsed_at_most_once(init);
        let n = states.len() - 1;
        assert(init[n - 1] == states[1]);
        let m = n - 1;
        let l = m - 1;
        assert(memo_access(states[l], states[l + 1]));
        assert(l + 1 == m);
        assert(states[m].spec_parsed() is Some);
        assert(memo_access(states[m], states[m + 1]));
        assert(m + 1 == n);
        assert(states[n] == states[m]);
        assert(states[n - 1] == init[n - 1]);
        assert forall|i: int| 1 <= i < states.len() implies #[trigger] states[i] == states[1] by {
            if i < n {
                assert(states[i] == init[i]);
            }
        }
        assert forall|i: int| 0 <= i < states.len() implies #[trigger] states[i].spec_text() == states[0].spec_text() by {
            if i < n {
                assert(states[i] == init[i]);
            }
        }
    } else if states.len() == 2 {
        let z: int = 0;
        assert(memo_access(states[z], states[z + 1]));
    }
}

/// The input of an attribute.
#[derive(Debug)]
#[non_exhaustive]
pub enum AttrInput {
    /// No input, as in `#[inline]`.
    NoInput,
    /// An expression, as in `#[doc = "text"]`; kept as a symbol.
    Expr(SymbolId),
    /// A delimited token tree, as in `#[derive(Debug)]`.
    DelimTokenTree(MacroTokenStream),
}

/// An attribute attached to an item or an expression.
#[derive(Debug)]
pub struct Attribute {
    is_outer: bool,
    path: Vec<SymbolId>,
    input: AttrInput,
    span: SpanId,
}

impl Attribute {
    pub closed spec fn spec_is_outer(self) -> bool {
        self.is_outer
    }

    pub closed spec fn spec_path(self) -> Seq<SymbolId> {
        self.path@
    }

    pub closed spec fn spec_input(self) -> AttrInput {
        self.input
    }

    pub closed spec fn spec_span(self) -> SpanId {
        self.span
    }

    pub fn new(is_outer: bool, path: Vec<SymbolId>, input: AttrInput, span: SpanId) -> (r: Self)
        ensures
            r.spec_is_outer() == is_outer,
            r.spec_path() == path@,
            r.spec_input() == input,
            r.spec_span() == span,
    {
        Attribute { is_outer, path, input, span }
    }

    /// Whether the attribute is attached from the outside: `#[attr] item`.
    pub fn is_outer(&self) -> (r: bool)
        ensures
            r == self.spec_is_outer(),
    {
        self.is_outer
    }

    /// Whether the attribute is attached from the inside: `mod m { #![attr] }`.
    pub fn is_inner(&self) -> (r: bool)
        ensures
            r == !self.spec_is_outer(),
    {
        !self.is_outer
    }

    /// The segments of the attribute's path.
    pub fn path(&self) -> (r: &Vec<SymbolId>)
        ensures
            r@ == self.spec_path(),
    {
        &self.path
    }

    pub fn input(&self) -> (r: &AttrInput)
        ensures
            *r == self.spec_input(),
    {
        &self.input
    }

    pub fn span(&self) -> (r: SpanId)
        ensures
            r == self.spec_span(),
    {
        self.span
    }
}

/// The path of a converted attribute: a doc comment becomes `doc = "text"`.
pub open spec fn spec_attr_path(src: SourceAttribute, doc: SymbolId) -> Seq<SymbolId> {
    match src.kind {
        SourceAttrKind::Normal { path, value } => path@,
        SourceAttrKind::DocComment(_) => seq![doc],
    }
}

/// The input of a converted attribute.
pub open spec fn spec_attr_input(src: SourceAttribute) -> AttrInput {
    match src.kind {
        SourceAttrKind::Normal { path, value } => match value {
            Some(v) => AttrInput::Expr(v),
            None => AttrInput::NoInput,
        },
        SourceAttrKind::DocComment(text) => AttrInput::Expr(text),
    }
}

/// Converts an attribute of the compiler's tree. A doc comment becomes an
/// attribute with the path `doc`, given as the symbol `doc`, and its text as input.
pub fn to_attribute(src: SourceAttribute, doc: SymbolId) -> (r: Attribute)
    ensures
        r.spec_is_outer() == src.is_outer,
        r.spec_path() == spec_attr_path(src, doc),
        r.spec_input() == spec_attr_input(src),
        r.spec_span() == (SpanId { raw: src.span.handle }),
{
    let ghost g = src;
    let span = SpanId { raw: src.span.handle };
    let (path, input) = match src.kind {
        SourceAttrKind::Normal { path, value } => {
            let input = match value {
                Some(v) => AttrInput::Expr(v),
                None => AttrInput::NoInput,
            };
            (path, input)
        },
        SourceAttrKind::DocComment(text) => {
            let mut path: Vec<SymbolId> = Vec::new();
            path.push(doc);
            assert(path@ =~= seq![doc]);
            (path, AttrInput::Expr(text))
        },
    };
    Attribute::new(src.is_outer, path, input, span)
}

} // verus!
