//! Generic parameters, lifetimes and bounds of the stable tree, and their
//! conversion from the compiler's tree.
//!
//! Parameters that the user did not write (anonymous and elided lifetimes,
//! the type parameters of `impl Trait` arguments) have no node.
use vstd::prelude::*;
use crate::ids::{GenericId, ItemId, SpanId, SymbolId, TyId};
use crate::session::span_id_of;
use crate::source::{
    SourceGenericArg, SourceGenericArgKind, SourceGenericArgs, SourceGenericBound, SourceGenericParam, SourceGenericParamKind, SourceGenerics, SourceLifetime,
    SourceExistentialBounds, SourceLifetimeName, SourceParamName, SourcePathSegment, SourceProjection,
    SourceSemArg, SourcePolyTraitRef, SourceTypeBinding,
    SourceWherePredicate,
};

verus! {

/// What a lifetime refers to.
#[derive(Clone, Copy, Debug, PartialEq, Eq, Structural)]
pub enum LifetimeKind {
    /// A named lifetime parameter, by its name and id.
    Label(SymbolId, GenericId),
    /// `'_`, inferred by the compiler.
    Infer,
    /// `'static`
    Static,
}

/// A lifetime as it is written.
#[derive(Clone, Copy, Debug, PartialEq, Eq, Structural)]
pub struct Lifetime {
    span: Option<SpanId>,
    kind: LifetimeKind,
}

impl Lifetime {
    pub closed spec fn spec_new(span: Option<SpanId>, kind: LifetimeKind) -> Self {
        Lifetime { span, kind }
    }

    pub proof fn lemma_spec_new(span: Option<SpanId>, kind: LifetimeKind)
        ensures
            Self::spec_new(span, kind).spec_span() == span,
            Self::spec_new(span, kind).spec_kind() == kind,
    {
    }

    pub fn new(span: Option<SpanId>, kind: LifetimeKind) -> (r: Self)
        ensures
            r == Self::spec_new(span, kind),
            r.spec_span() == span,
            r.spec_kind() == kind,
    {
        Lifetime { span, kind }
    }

    pub closed spec fn spec_span(self) -> Option<SpanId> {
        self.span
    }

    /// The span of the lifetime, if it was written.
    pub fn span(&self) -> (r: Option<SpanId>)
        ensures
            r == self.spec_span(),
    {
        self.span
    }

    pub closed spec fn spec_kind(self) -> LifetimeKind {
        self.kind
    }

    /// What the lifetime refers to.
    pub fn kind(&self) -> (r: LifetimeKind)
        ensures
            r == self.spec_kind(),
    {
        self.kind
    }
}

/// A declared lifetime parameter, such as `'a` in `fn f<'a>()`.
#[derive(Clone, Copy, Debug, PartialEq, Eq, Structural)]
pub struct LifetimeParam {
    id: GenericId,
    name: SymbolId,
    span: Option<SpanId>,
}

impl LifetimeParam {
    pub closed spec fn spec_new(id: GenericId, name: SymbolId, span: Option<SpanId>) -> Self {
        LifetimeParam { id, name, span }
    }

    pub proof fn lemma_spec_new(id: GenericId, name: SymbolId, span: Option<SpanId>)
        ensures
            Self::spec_new(id, name, span).spec_id() == id,
            Self::spec_new(id, name, span).spec_name() == name,
            Self::spec_new(id, name, span).spec_span() == span,
    {
    }

    pub fn new(id: GenericId, name: SymbolId, span: Option<SpanId>) -> (r: Self)
        ensures
            r == Self::spec_new(id, name, span),
            r.spec_id() == id,
            r.spec_name() == name,
            r.spec_span() == span,
    {
        LifetimeParam { id, name, span }
    }

    pub closed spec fn spec_id(self) -> GenericId {
        self.id
    }

    /// The parameter's id.
    pub fn id(&self) -> (r: GenericId)
        ensures
            r == self.spec_id(),
    {
        self.id
    }

    pub closed spec fn spec_name(self) -> SymbolId {
        self.name
    }

    /// The parameter's name.
    pub fn name(&self) -> (r: SymbolId)
        ensures
            r == self.spec_name(),
    {
        self.name
    }

    pub closed spec fn spec_span(self) -> Option<SpanId> {
        self.span
    }

    /// The parameter's span.
    pub fn span(&self) -> (r: Option<SpanId>)
        ensures
            r == self.spec_span(),
    {
        self.span
    }
}

/// A declared type parameter, such as `T` in `fn f<T>()`.
#[derive(Clone, Copy, Debug, PartialEq, Eq, Structural)]
pub struct TyParam {
    span: Option<SpanId>,
    name: SymbolId,
    id: GenericId,
}

impl TyParam {
    pub closed spec fn spec_new(span: Option<SpanId>, name: SymbolId, id: GenericId) -> Self {
        TyParam { span, name, id }
    }

    pub proof fn lemma_spec_new(span: Option<SpanId>, name: SymbolId, id: GenericId)
        ensures
            Self::spec_new(span, name, id).spec_span() == span,
            Self::spec_new(span, name, id).spec_name() == name,
            Self::spec_new(span, name, id).spec_id() == id,
    {
    }

    pub fn new(span: Option<SpanId>, name: SymbolId, id: GenericId) -> (r: Self)
        ensures
            r == Self::spec_new(span, name, id),
            r.spec_span() == span,
            r.spec_name() == name,
            r.spec_id() == id,
    {
        TyParam { span, name, id }
    }

    pub closed spec fn spec_span(self) -> Option<SpanId> {
        self.span
    }

    /// The parameter's span.
    pub fn span(&self) -> (r: Option<SpanId>)
        ensures
            r == self.spec_span(),
    {
        self.span
    }

    pub closed spec fn spec_name(self) -> SymbolId {
        self.name
    }

    /// The parameter's name.
    pub fn name(&self) -> (r: SymbolId)
        ensures
            r == self.spec_name(),
    {
        self.name
    }

    pub closed spec fn spec_id(self) -> GenericId {
        self.id
    }

    /// The parameter's id.
    pub fn id(&self) -> (r: GenericId)
        ensures
            r == self.spec_id(),
    {
        self.id
    }
}

/// A trait bound, such as `Clone` in `T: Clone`, or `?Sized`.
#[derive(Clone, Copy, Debug, PartialEq, Eq, Structural)]
pub struct TraitBound {
    is_relaxed: bool,
    trait_id: ItemId,
    span: SpanId,
}

impl TraitBound {
    pub closed spec fn spec_new(is_relaxed: bool, trait_id: ItemId, span: SpanId) -> Self {
        TraitBound { is_relaxed, trait_id, span }
    }

    pub proof fn lemma_spec_new(is_relaxed: bool, trait_id: ItemId, span: SpanId)
        ensures
            Self::spec_new(is_relaxed, trait_id, span).spec_is_relaxed() == is_relaxed,
            Self::spec_new(is_relaxed, trait_id, span).spec_trait_id() == trait_id,
            Self::spec_new(is_relaxed, trait_id, span).spec_span() == span,
    {
    }

    pub fn new(is_relaxed: bool, trait_id: ItemId, span: SpanId) -> (r: Self)
        ensures
            r == Self::spec_new(is_relaxed, trait_id, span),
            r.spec_is_relaxed() == is_relaxed,
            r.spec_trait_id() == trait_id,
            r.spec_span() == span,
    {
        TraitBound { is_relaxed, trait_id, span }
    }

    pub closed spec fn spec_is_relaxed(self) -> bool {
        self.is_relaxed
    }

    /// Whether the bound is relaxed with `?`.
    pub fn is_relaxed(&self) -> (r: bool)
        ensures
            r == self.spec_is_relaxed(),
    {
        self.is_relaxed
    }

    pub closed spec fn spec_trait_id(self) -> ItemId {
        self.trait_id
    }

    /// The trait.
    pub fn trait_id(&self) -> (r: ItemId)
        ensures
            r == self.spec_trait_id(),
    {
        self.trait_id
    }

    pub closed spec fn spec_span(self) -> SpanId {
        self.span
    }

    /// The bound's span.
    pub fn span(&self) -> (r: SpanId)
        ensures
            r == self.spec_span(),
    {
        self.span
    }
}

/// A declared generic parameter.
#[derive(Clone, Copy, Debug, PartialEq, Eq, Structural)]
#[non_exhaustive]
pub enum GenericParamKind {
    Lifetime(LifetimeParam),
    Ty(TyParam),
}

/// A bound on a type parameter.
#[derive(Clone, Copy, Debug, PartialEq, Eq, Structural)]
#[non_exhaustive]
pub enum TyParamBound {
    Lifetime(Lifetime),
    TraitBound(TraitBound),
}

/// The elements of `s` that `f` maps to a value, mapped, in order.
pub open spec fn filter_map_seq<A, B>(s: Seq<A>, f: spec_fn(A) -> Option<B>) -> Seq<B>
    decreases s.len(),
{
    if s.len() == 0 {
        Seq::empty()
    } else {
        let init = filter_map_seq(s.drop_last(), f);
        match f(s.last()) {
            Some(b) => init.push(b),
            None => init,
        }
    }
}

proof fn lemma_filter_map_step<A, B>(s: Seq<A>, i: int, f: spec_fn(A) -> Option<B>)
    requires
        0 <= i < s.len(),
    ensures
        filter_map_seq(s.subrange(0, i + 1), f) == match f(s[i]) {
            Some(b) => filter_map_seq(s.subrange(0, i), f).push(b),
            None => filter_map_seq(s.subrange(0, i), f),
        },
{
    assert(s.subrange(0, i + 1).drop_last() =~= s.subrange(0, i));
    assert(s.subrange(0, i + 1).last() == s[i]);
}

proof fn lemma_filter_map_start<A, B>(s: Seq<A>, f: spec_fn(A) -> Option<B>)
    ensures
        filter_map_seq(s.subrange(0, 0), f) == Seq::<B>::empty(),
{
    assert(s.subrange(0, 0) =~= Seq::<A>::empty());
}

/// The stable lifetime for a lifetime of the compiler's tree; anonymous
/// lifetimes and the implicit default of trait objects have none.
pub open spec fn spec_to_lifetime(src: SourceLifetime) -> Option<Lifetime> {
    let span = Some(span_id_of(src.span));
    match src.name {
        SourceLifetimeName::Param { anonymous, param } => if anonymous {
            None
        } else {
            Some(Lifetime::spec_new(span, LifetimeKind::Label(src.ident, GenericId { raw: param })))
        },
        SourceLifetimeName::ImplicitObjectLifetimeDefault => None,
        SourceLifetimeName::Infer => Some(Lifetime::spec_new(span, LifetimeKind::Infer)),
        SourceLifetimeName::Static => Some(Lifetime::spec_new(span, LifetimeKind::Static)),
    }
}

pub fn to_lifetime(src: &SourceLifetime) -> (r: Option<Lifetime>)
    ensures
        r == spec_to_lifetime(*src),
{
    let span = Some(SpanId { raw: src.span.handle });
    match src.name {
        SourceLifetimeName::Param { anonymous, param } => if anonymous {
            None
        } else {
            Some(Lifetime::new(span, LifetimeKind::Label(src.ident, GenericId { raw: param })))
        },
        SourceLifetimeName::ImplicitObjectLifetimeDefault => None,
        SourceLifetimeName::Infer => Some(Lifetime::new(span, LifetimeKind::Infer)),
        SourceLifetimeName::Static => Some(Lifetime::new(span, LifetimeKind::Static)),
    }
}

/// The stable parameter for a generic parameter of the compiler's tree: only
/// named, explicit lifetime parameters and non-synthetic type parameters have one.
pub open spec fn spec_to_param(p: SourceGenericParam) -> Option<GenericParamKind> {
    match p.name {
        SourceParamName::Plain(name) => {
            let id = GenericId { raw: p.def_id };
            let span = Some(span_id_of(p.span));
            match p.kind {
                SourceGenericParamKind::Lifetime { explicit } => if explicit {
                    Some(GenericParamKind::Lifetime(LifetimeParam::spec_new(id, name, span)))
                } else {
                    None
                },
                SourceGenericParamKind::Type { synthetic } => if !synthetic {
                    Some(GenericParamKind::Ty(TyParam::spec_new(span, name, id)))
                } else {
                    None
                },
                SourceGenericParamKind::Const => None,
            }
        },
        _ => None,
    }
}

fn to_param(p: &SourceGenericParam) -> (r: Option<GenericParamKind>)
    ensures
        r == spec_to_param(*p),
{
    match p.name {
        SourceParamName::Plain(name) => {
            let id = GenericId { raw: p.def_id };
            let span = Some(SpanId { raw: p.span.handle });
            match p.kind {
                SourceGenericParamKind::Lifetime { explicit } => if explicit {
                    Some(GenericParamKind::Lifetime(LifetimeParam::new(id, name, span)))
                } else {
                    None
                },
                SourceGenericParamKind::Type { synthetic } => if !synthetic {
                    Some(GenericParamKind::Ty(TyParam::new(span, name, id)))
                } else {
                    None
                },
                SourceGenericParamKind::Const => None,
            }
        },
        _ => None,
    }
}

/// Converts the generic parameters that have a stable node, in order.
pub fn to_generic_param_kinds(params: &Vec<SourceGenericParam>) -> (r: Vec<GenericParamKind>)
    ensures
        r@ == filter_map_seq(params@, |p: SourceGenericParam| spec_to_param(p)),
{
    let ghost f = |p: SourceGenericParam| spec_to_param(p);
    let mut r: Vec<GenericParamKind> = Vec::new();
    let mut i: usize = 0;
    proof {
        lemma_filter_map_start(params@, f);
    }
    while i < params.len()
        invariant
            0 <= i <= params@.len(),
            f == (|p: SourceGenericParam| spec_to_param(p)),
            r@ == filter_map_seq(params@.subrange(0, i as int), f),
        decreases params@.len() - i,
    {
        proof {
            lemma_filter_map_step(params@, i as int, f);
        }
        match to_param(&params[i]) {
            Some(k) => r.push(k),
            None => {},
        }
        i += 1;
    }
    assert(params@.subrange(0, i as int) =~= params@);
    r
}

/// The stable bound for a bound of the compiler's tree; a lifetime bound has
/// one only where its lifetime has one.
pub open spec fn spec_to_bound(b: SourceGenericBound) -> Option<TyParamBound> {
    match b {
        SourceGenericBound::Trait { maybe, trait_def, span } => Some(
            TyParamBound::TraitBound(
                TraitBound::spec_new(maybe, ItemId { raw: trait_def }, span_id_of(span)),
            ),
        ),
        SourceGenericBound::Outlives(lt) => match spec_to_lifetime(lt) {
            Some(l) => Some(TyParamBound::Lifetime(l)),
            None => None,
        },
    }
}

fn to_bound(b: &SourceGenericBound) -> (r: Option<TyParamBound>)
    ensures
        r == spec_to_bound(*b),
{
    match b {
        SourceGenericBound::Trait { maybe, trait_def, span } => Some(
            TyParamBound::TraitBound(
                TraitBound::new(*maybe, ItemId { raw: *trait_def }, SpanId { raw: span.handle }),
            ),
        ),
        SourceGenericBound::Outlives(lt) => match to_lifetime(lt) {
            Some(l) => Some(TyParamBound::Lifetime(l)),
            None => None,
        },
    }
}

/// Converts the bounds that have a stable node, in order.
pub fn to_ty_param_bound(bounds: &Vec<SourceGenericBound>) -> (r: Vec<TyParamBound>)
    ensures
        r@ == filter_map_seq(bounds@, |b: SourceGenericBound| spec_to_bound(b)),
{
    let ghost f = |b: SourceGenericBound| spec_to_bound(b);
    let mut r: Vec<TyParamBound> = Vec::new();
    let mut i: usize = 0;
    proof {
        lemma_filter_map_start(bounds@, f);
    }
    while i < bounds.len()
        invariant
            0 <= i <= bounds@.len(),
            f == (|b: SourceGenericBound| spec_to_bound(b)),
            r@ == filter_map_seq(bounds@.subrange(0, i as int), f),
        decreases bounds@.len() - i,
    {
        proof {
            lemma_filter_map_step(bounds@, i as int, f);
        }
        match to_bound(&bounds[i]) {
            Some(b) => r.push(b),
            None => {},
        }
        i += 1;
    }
    assert(bounds@.subrange(0, i as int) =~= bounds@);
    r
}

/// The bound that a trait of a trait object type gives: never relaxed.
pub open spec fn spec_object_bound(t: SourcePolyTraitRef) -> TyParamBound {
    TyParamBound::TraitBound(TraitBound::spec_new(false, ItemId { raw: t.trait_def }, span_id_of(t.span)))
}

/// Converts the bounds of a trait object type: its traits, in order, then its
/// lifetime, where that has a stable node.
pub fn to_ty_param_bound_from_hir(traits: &Vec<SourcePolyTraitRef>, lifetime: &SourceLifetime) -> (r:
    Vec<TyParamBound>)
    ensures
        r@ == traits@.map_values(|t: SourcePolyTraitRef| spec_object_bound(t)) + match spec_to_lifetime(
            *lifetime,
        ) {
            Some(l) => seq![TyParamBound::Lifetime(l)],
            None => Seq::empty(),
        },
{
    let mut r: Vec<TyParamBound> = Vec::new();
    let mut i: usize = 0;
    while i < traits.len()
        invariant
            0 <= i <= traits@.len(),
            r@ == traits@.subrange(0, i as int).map_values(|t: SourcePolyTraitRef| spec_object_bound(t)),
        decreases traits@.len() - i,
    {
        let t = traits[i];
        r.push(TyParamBound::TraitBound(TraitBound::new(false, ItemId { raw: t.trait_def }, SpanId { raw: t.span.handle })));
        i += 1;
        assert(r@ =~= traits@.subrange(0, i as int).map_values(|t: SourcePolyTraitRef| spec_object_bound(t)));
    }
    assert(traits@.subrange(0, i as int) =~= traits@);
    match to_lifetime(lifetime) {
        Some(l) => r.push(TyParamBound::Lifetime(l)),
        None => {},
    }
    assert(r@ =~= traits@.map_values(|t: SourcePolyTraitRef| spec_object_bound(t)) + match spec_to_lifetime(
        *lifetime,
    ) {
        Some(l) => seq![TyParamBound::Lifetime(l)],
        None => Seq::empty(),
    });
    r
}

/// A `where` clause on a type: `for<params> ty: bounds`.
#[derive(Debug)]
pub struct TyClause {
    params: Vec<GenericParamKind>,
    ty: TyId,
    bounds: Vec<TyParamBound>,
}

/// A `where` clause on a lifetime: `'a: 'b + 'c`.
#[derive(Debug)]
pub struct LifetimeClause {
    lifetime: Lifetime,
    bounds: Vec<Lifetime>,
}

/// A clause of a `where` list.
#[derive(Debug)]
#[non_exhaustive]
pub enum WhereClauseKind {
    Lifetime(LifetimeClause),
    Ty(TyClause),
}

/// The generic parameters of an item and its `where` clauses.
#[derive(Debug)]
pub struct GenericParams {
    params: Vec<GenericParamKind>,
    clauses: Vec<WhereClauseKind>,
}

impl TyClause {
    pub closed spec fn spec_params(self) -> Seq<GenericParamKind> {
        self.params@
    }

    pub closed spec fn spec_ty(self) -> TyId {
        self.ty
    }

    pub closed spec fn spec_bounds(self) -> Seq<TyParamBound> {
        self.bounds@
    }

    /// The parameters of a `for<...>` binder, if any.
    pub fn params(&self) -> (r: &Vec<GenericParamKind>)
        ensures
            r@ == self.spec_params(),
    {
        &self.params
    }

    /// The bounded type.
    pub fn ty(&self) -> (r: TyId)
        ensures
            r == self.spec_ty(),
    {
        self.ty
    }

    pub fn bounds(&self) -> (r: &Vec<TyParamBound>)
        ensures
            r@ == self.spec_bounds(),
    {
        &self.bounds
    }
}

impl LifetimeClause {
    pub closed spec fn spec_lifetime(self) -> Lifetime {
        self.lifetime
    }

    pub closed spec fn spec_bounds(self) -> Seq<Lifetime> {
        self.bounds@
    }

    /// The bounded lifetime.
    pub fn lifetime(&self) -> (r: Lifetime)
        ensures
            r == self.spec_lifetime(),
    {
        self.lifetime
    }

    /// The lifetimes that outlive the bounded one.
    pub fn bounds(&self) -> (r: &Vec<Lifetime>)
        ensures
            r@ == self.spec_bounds(),
    {
        &self.bounds
    }
}

impl GenericParams {
    pub closed spec fn spec_params(self) -> Seq<GenericParamKind> {
        self.params@
    }

    pub closed spec fn spec_clauses(self) -> Seq<WhereClauseKind> {
        self.clauses@
    }

    pub fn params(&self) -> (r: &Vec<GenericParamKind>)
        ensures
            r@ == self.spec_params(),
    {
        &self.params
    }

    pub fn clauses(&self) -> (r: &Vec<WhereClauseKind>)
        ensures
            r@ == self.spec_clauses(),
    {
        &self.clauses
    }
}

/// Whether a predicate of the compiler's tree has a clause in the stable tree:
/// a lifetime clause has one only where its lifetime has one.
pub open spec fn clause_kept(p: SourceWherePredicate) -> bool {
    match p {
        SourceWherePredicate::Bound { .. } => true,
        SourceWherePredicate::Region { lifetime, .. } => spec_to_lifetime(lifetime) is Some,
    }
}

/// Whether `c` is the stable clause for the predicate `p`.
pub open spec fn converted_clause(p: SourceWherePredicate, c: WhereClauseKind) -> bool {
    match p {
        SourceWherePredicate::Bound { params, bounded_ty, bounds } => c matches WhereClauseKind::Ty(t)
            && t.spec_params() == filter_map_seq(params@, |q: SourceGenericParam| spec_to_param(q))
            && t.spec_ty() == (TyId { raw: bounded_ty })
            && t.spec_bounds() == filter_map_seq(bounds@, |b: SourceGenericBound| spec_to_bound(b)),
        SourceWherePredicate::Region { lifetime, outlives } => c matches WhereClauseKind::Lifetime(l)
            && spec_to_lifetime(lifetime) == Some(l.spec_lifetime())
            && l.spec_bounds() == filter_map_seq(outlives@, |b: SourceLifetime| spec_to_lifetime(b)),
    }
}

/// The predicates that have a stable clause, in order.
pub open spec fn kept_predicates(ps: Seq<SourceWherePredicate>) -> Seq<SourceWherePredicate> {
    filter_map_seq(
        ps,
        |p: SourceWherePredicate|
            if clause_kept(p) {
                Some(p)
            } else {
                None
            },
    )
}

fn to_lifetimes(lifetimes: &Vec<SourceLifetime>) -> (r: Vec<Lifetime>)
    ensures
        r@ == filter_map_seq(lifetimes@, |b: SourceLifetime| spec_to_lifetime(b)),
{
    let ghost f = |b: SourceLifetime| spec_to_lifetime(b);
    let mut r: Vec<Lifetime> = Vec::new();
    let mut i: usize = 0;
    proof {
        lemma_filter_map_start(lifetimes@, f);
    }
    while i < lifetimes.len()
        invariant
            0 <= i <= lifetimes@.len(),
            f == (|b: SourceLifetime| spec_to_lifetime(b)),
            r@ == filter_map_seq(lifetimes@.subrange(0, i as int), f),
        decreases lifetimes@.len() - i,
    {
        proof {
            lemma_filter_map_step(lifetimes@, i as int, f);
        }
        match to_lifetime(&lifetimes[i]) {
            Some(l) => r.push(l),
            None => {},
        }
        i += 1;
    }
    assert(lifetimes@.subrange(0, i as int) =~= lifetimes@);
    r
}

fn to_clause(p: &SourceWherePredicate) -> (r: Option<WhereClauseKind>)
    ensures
        match r {
            Some(c) => clause_kept(*p) && converted_clause(*p, c),
            None => !clause_kept(*p),
        },
{
    match p {
        SourceWherePredicate::Bound { params, bounded_ty, bounds } => Some(
            WhereClauseKind::Ty(
                TyClause {
                    params: to_generic_param_kinds(params),
                    ty: TyId { raw: *bounded_ty },
                    bounds: to_ty_param_bound(bounds),
                },
            ),
        ),
        SourceWherePredicate::Region { lifetime, outlives } => match to_lifetime(lifetime) {
            Some(l) => Some(
                WhereClauseKind::Lifetime(LifetimeClause { lifetime: l, bounds: to_lifetimes(outlives) }),
            ),
            None => None,
        },
    }
}

/// Converts the generics of an item: the parameters that have a stable node,
/// and a clause for each predicate that has one, in order.
pub fn to_generic_params(generics: &SourceGenerics) -> (r: GenericParams)
    ensures
        generics_converted(*generics, r),
        r.spec_params() == filter_map_seq(generics.params@, |p: SourceGenericParam| spec_to_param(p)),
        r.spec_clauses().len() == kept_predicates(generics.predicates@).len(),
        forall|i: int|
            0 <= i < r.spec_clauses().len() ==> converted_clause(
                #[trigger] kept_predicates(generics.predicates@)[i],
                r.spec_clauses()[i],
            ),
{
    let ghost ps = generics.predicates@;
    let ghost keep = |p: SourceWherePredicate|
        if clause_kept(p) {
            Some(p)
        } else {
            None
        };
    let mut clauses: Vec<WhereClauseKind> = Vec::new();
    let mut i: usize = 0;
    proof {
        lemma_filter_map_start(ps, keep);
    }
    while i < generics.predicates.len()
        invariant
            0 <= i <= ps.len(),
            ps == generics.predicates@,
            keep == (|p: SourceWherePredicate|
                if clause_kept(p) {
                    Some(p)
                } else {
                    None
                }),
            clauses@.len() == filter_map_seq(ps.subrange(0, i as int), keep).len(),
            forall|j: int|
                0 <= j < clauses@.len() ==> converted_clause(
                    #[trigger] filter_map_seq(ps.subrange(0, i as int), keep)[j],
                    clauses@[j],
                ),
        decreases ps.len() - i,
    {
        proof {
            lemma_filter_map_step(ps, i as int, keep);
        }
        let ghost before = filter_map_seq(ps.subrange(0, i as int), keep);
        match to_clause(&generics.predicates[i]) {
            Some(c) => {
                clauses.push(c);
                proof {
                    let after = filter_map_seq(ps.subrange(0, i as int + 1), keep);
                    assert(after == before.push(ps[i as int]));
                    assert forall|j: int| 0 <= j < clauses@.len() implies converted_clause(
                        #[trigger] after[j],
                        clauses@[j],
                    ) by {
                        if j < before.len() {
                            assert(after[j] == before[j]);
                        }
                    }
                }
            },
            None => {},
        }
        i += 1;
    }
    assert(ps.subrange(0, i as int) =~= ps);
    GenericParams { params: to_generic_param_kinds(&generics.params), clauses }
}

/// A generic argument.
#[derive(Clone, Copy, Debug, PartialEq, Eq, Structural)]
#[non_exhaustive]
pub enum GenericArgKind {
    Lifetime(Lifetime),
    /// A type, by its id.
    Ty(TyId),
    /// An associated type binding: its span, its name and the bound type.
    Binding(Option<SpanId>, SymbolId, TyId),
}

/// The generic arguments of a path segment.
#[derive(Debug)]
pub struct GenericArgs {
    args: Vec<GenericArgKind>,
}

impl GenericArgs {
    pub closed spec fn spec_args(self) -> Seq<GenericArgKind> {
        self.args@
    }

    pub fn args(&self) -> (r: &Vec<GenericArgKind>)
        ensures
            r@ == self.spec_args(),
    {
        &self.args
    }
}

/// The stable argument for a generic argument of the compiler's tree: those
/// that the compiler added have none, nor do lifetimes without a stable node.
pub open spec fn spec_to_arg(a: SourceGenericArg) -> Option<GenericArgKind> {
    if a.synthetic {
        None
    } else {
        match a.kind {
            SourceGenericArgKind::Lifetime(lt) => match spec_to_lifetime(lt) {
                Some(l) => Some(GenericArgKind::Lifetime(l)),
                None => None,
            },
            SourceGenericArgKind::Type(ty) => Some(GenericArgKind::Ty(TyId { raw: ty })),
        }
    }
}

/// The stable argument for an associated type binding.
pub open spec fn spec_to_binding(b: SourceTypeBinding) -> GenericArgKind {
    GenericArgKind::Binding(Some(span_id_of(b.span)), b.name, TyId { raw: b.ty })
}

/// The stable arguments for the generic arguments of the compiler's tree:
/// the arguments that have a node, then the bindings, in order.
pub open spec fn spec_to_generic_args(args: Option<SourceGenericArgs>) -> Seq<GenericArgKind> {
    match args {
        None => Seq::empty(),
        Some(a) => filter_map_seq(a.args@, |x: SourceGenericArg| spec_to_arg(x)) + a.bindings@.map_values(
            |b: SourceTypeBinding| spec_to_binding(b),
        ),
    }
}

fn to_arg(a: &SourceGenericArg) -> (r: Option<GenericArgKind>)
    ensures
        r == spec_to_arg(*a),
{
    if a.synthetic {
        None
    } else {
        match a.kind {
            SourceGenericArgKind::Lifetime(lt) => match to_lifetime(&lt) {
                Some(l) => Some(GenericArgKind::Lifetime(l)),
                None => None,
            },
            SourceGenericArgKind::Type(ty) => Some(GenericArgKind::Ty(TyId { raw: ty })),
        }
    }
}

/// Converts the generic arguments of a path segment, if it has any.
pub fn to_generic_args(args: Option<&SourceGenericArgs>) -> (r: GenericArgs)
    ensures
        r.spec_args() == spec_to_generic_args(
            match args {
                Some(a) => Some(*a),
                None => None,
            },
        ),
{
    let a = match args {
        None => {
            return GenericArgs { args: Vec::new() };
        },
        Some(a) => a,
    };
    let ghost f = |x: SourceGenericArg| spec_to_arg(x);
    let mut r: Vec<GenericArgKind> = Vec::new();
    let mut i: usize = 0;
    proof {
        lemma_filter_map_start(a.args@, f);
    }
    while i < a.args.len()
        invariant
            0 <= i <= a.args@.len(),
            f == (|x: SourceGenericArg| spec_to_arg(x)),
            r@ == filter_map_seq(a.args@.subrange(0, i as int), f),
        decreases a.args@.len() - i,
    {
        proof {
            lemma_filter_map_step(a.args@, i as int, f);
        }
        match to_arg(&a.args[i]) {
            Some(x) => r.push(x),
            None => {},
        }
        i += 1;
    }
    assert(a.args@.subrange(0, i as int) =~= a.args@);
    let ghost front = r@;
    let mut j: usize = 0;
    while j < a.bindings.len()
        invariant
            0 <= j <= a.bindings@.len(),
            r@ == front + a.bindings@.subrange(0, j as int).map_values(
                |b: SourceTypeBinding| spec_to_binding(b),
            ),
        decreases a.bindings@.len() - j,
    {
        let b = a.bindings[j];
        r.push(GenericArgKind::Binding(Some(SpanId { raw: b.span.handle }), b.name, TyId { raw: b.ty }));
        j += 1;
        assert(r@ =~= front + a.bindings@.subrange(0, j as int).map_values(
            |b: SourceTypeBinding| spec_to_binding(b),
        ));
    }
    assert(a.bindings@.subrange(0, j as int) =~= a.bindings@);
    GenericArgs { args: r }
}

/// Converts the generic arguments of a path: those of its last segment.
pub fn to_generic_args_from_path(segments: &Vec<SourcePathSegment>) -> (r: GenericArgs)
    ensures
        r.spec_args() == if segments@.len() == 0 {
            Seq::<GenericArgKind>::empty()
        } else {
            spec_to_generic_args(segments@.last().args)
        },
{
    if segments.len() == 0 {
        return to_generic_args(None);
    }
    let last = &segments[segments.len() - 1];
    match &last.args {
        Some(a) => to_generic_args(Some(a)),
        None => to_generic_args(None),
    }
}

/// Whether `g` is the stable form of the generics `src`: the parameters that
/// have a node, and one clause for each predicate that has one, in order.
pub open spec fn generics_converted(src: SourceGenerics, g: GenericParams) -> bool {
    &&& g.spec_params() == filter_map_seq(src.params@, |p: SourceGenericParam| spec_to_param(p))
    &&& g.spec_clauses().len() == kept_predicates(src.predicates@).len()
    &&& forall|i: int|
        0 <= i < g.spec_clauses().len() ==> converted_clause(
            #[trigger] kept_predicates(src.predicates@)[i],
            g.spec_clauses()[i],
        )
}

/// A semantic generic argument: a type, or an associated type binding.
#[derive(Clone, Copy, Debug, PartialEq, Eq, Structural)]
#[non_exhaustive]
pub enum SemGenericArgKind {
    Ty(TyId),
    /// The associated item and the type bound to it.
    TyBinding(ItemId, TyId),
}

/// A semantic trait bound: the trait and its arguments.
#[derive(Debug)]
pub struct SemTraitBound {
    is_relaxed: bool,
    trait_id: ItemId,
    args: Vec<SemGenericArgKind>,
}

impl SemTraitBound {
    pub closed spec fn spec_is_relaxed(self) -> bool {
        self.is_relaxed
    }

    pub closed spec fn spec_trait_id(self) -> ItemId {
        self.trait_id
    }

    pub closed spec fn spec_args(self) -> Seq<SemGenericArgKind> {
        self.args@
    }

    /// Whether the bound is relaxed with `?`.
    pub fn is_relaxed(&self) -> (r: bool)
        ensures
            r == self.spec_is_relaxed(),
    {
        self.is_relaxed
    }

    pub fn trait_id(&self) -> (r: ItemId)
        ensures
            r == self.spec_trait_id(),
    {
        self.trait_id
    }

    pub fn args(&self) -> (r: &Vec<SemGenericArgKind>)
        ensures
            r@ == self.spec_args(),
    {
        &self.args
    }
}

/// Whether `b` is the bound for the auto trait `t`: that trait, with no arguments.
pub open spec fn auto_bound(b: SemTraitBound, t: u64) -> bool {
    b.spec_trait_id() == (ItemId { raw: t }) && b.spec_args() == Seq::<SemGenericArgKind>::empty()
}

/// The semantic argument for an argument of the compiler: lifetimes have none.
pub open spec fn spec_to_sem_arg(a: SourceSemArg) -> Option<SemGenericArgKind> {
    match a {
        SourceSemArg::Lifetime => None,
        SourceSemArg::Type(t) => Some(SemGenericArgKind::Ty(TyId { raw: t })),
    }
}

/// The binding argument for a projection.
pub open spec fn spec_binding_arg(p: SourceProjection) -> SemGenericArgKind {
    SemGenericArgKind::TyBinding(ItemId { raw: p.item_def }, TyId { raw: p.ty })
}

/// Converts semantic generic arguments, leaving out lifetimes.
pub fn to_sem_generic_args(args: &Vec<SourceSemArg>) -> (r: Vec<SemGenericArgKind>)
    ensures
        r@ == filter_map_seq(args@, |a: SourceSemArg| spec_to_sem_arg(a)),
{
    let ghost f = |a: SourceSemArg| spec_to_sem_arg(a);
    let mut r: Vec<SemGenericArgKind> = Vec::new();
    let mut i: usize = 0;
    proof {
        lemma_filter_map_start(args@, f);
    }
    while i < args.len()
        invariant
            0 <= i <= args@.len(),
            f == (|a: SourceSemArg| spec_to_sem_arg(a)),
            r@ == filter_map_seq(args@.subrange(0, i as int), f),
        decreases args@.len() - i,
    {
        proof {
            lemma_filter_map_step(args@, i as int, f);
        }
        match args[i] {
            SourceSemArg::Lifetime => {},
            SourceSemArg::Type(t) => r.push(SemGenericArgKind::Ty(TyId { raw: t })),
        }
        i += 1;
    }
    assert(args@.subrange(0, i as int) =~= args@);
    r
}

/// Converts the bounds of a semantic trait object type: first the main trait,
/// if any, whose arguments are its type arguments followed by the bindings;
/// then each auto trait, with no arguments. None is relaxed.
pub fn to_sem_trait_bounds(bounds: &SourceExistentialBounds) -> (r: Vec<SemTraitBound>)
    ensures
        r@.len() == (if bounds.principal is Some { 1int } else { 0int }) + bounds.auto_traits@.len(),
        forall|i: int| 0 <= i < r@.len() ==> !(#[trigger] r@[i]).spec_is_relaxed(),
        match bounds.principal {
            Some(p) => r@[0].spec_trait_id() == (ItemId { raw: p.trait_def }) && r@[0].spec_args()
                == filter_map_seq(p.args@, |a: SourceSemArg| spec_to_sem_arg(a))
                + bounds.projections@.map_values(|q: SourceProjection| spec_binding_arg(q)),
            None => true,
        },
        forall|j: int|
            0 <= j < bounds.auto_traits@.len() ==> auto_bound(
                r@[(if bounds.principal is Some { 1int } else { 0int }) + j],
                #[trigger] bounds.auto_traits@[j],
            ),
{
    let mut r: Vec<SemTraitBound> = Vec::new();
    match &bounds.principal {
        Some(p) => {
            let mut args = to_sem_generic_args(&p.args);
            let ghost front = args@;
            let mut j: usize = 0;
            while j < bounds.projections.len()
                invariant
                    0 <= j <= bounds.projections@.len(),
                    args@ == front + bounds.projections@.subrange(0, j as int).map_values(
                        |q: SourceProjection| spec_binding_arg(q),
                    ),
                decreases bounds.projections@.len() - j,
            {
                let q = bounds.projections[j];
                args.push(SemGenericArgKind::TyBinding(ItemId { raw: q.item_def }, TyId { raw: q.ty }));
                j += 1;
                assert(args@ =~= front + bounds.projections@.subrange(0, j as int).map_values(
                    |q: SourceProjection| spec_binding_arg(q),
                ));
            }
            assert(bounds.projections@.subrange(0, j as int) =~= bounds.projections@);
            r.push(SemTraitBound { is_relaxed: false, trait_id: ItemId { raw: p.trait_def }, args });
        },
        None => {},
    }
    let ghost start = r@.len();
    let mut k: usize = 0;
    while k < bounds.auto_traits.len()
        invariant
            0 <= k <= bounds.auto_traits@.len(),
            start == (if bounds.principal is Some { 1int } else { 0int }),
            r@.len() == start + k,
            forall|i: int| 0 <= i < r@.len() ==> !(#[trigger] r@[i]).spec_is_relaxed(),
            match bounds.principal {
                Some(p) => r@[0].spec_trait_id() == (ItemId { raw: p.trait_def }) && r@[0].spec_args()
                    == filter_map_seq(p.args@, |a: SourceSemArg| spec_to_sem_arg(a))
                    + bounds.projections@.map_values(|q: SourceProjection| spec_binding_arg(q)),
                None => true,
            },
            forall|j: int| 0 <= j < k ==> auto_bound(r@[start + j], #[trigger] bounds.auto_traits@[j]),
        decreases bounds.auto_traits@.len() - k,
    {
        let args: Vec<SemGenericArgKind> = Vec::new();
        assert(args@ =~= Seq::<SemGenericArgKind>::empty());
        let ghost prev = r@;
        let bound = SemTraitBound { is_relaxed: false, trait_id: ItemId { raw: bounds.auto_traits[k] }, args };
        r.push(bound);
        proof {
            assert(r@[start + k] == bound);
            assert forall|j: int| 0 <= j < k + 1 implies auto_bound(
                r@[start + j],
                #[trigger] bounds.auto_traits@[j],
            ) by {
                if j < k {
                    assert(r@[start + j] == prev[start + j]);
                    assert(auto_bound(prev[start + j], bounds.auto_traits@[j]));
                }
            }
            assert forall|i: int| 0 <= i < r@.len() implies !(#[trigger] r@[i]).spec_is_relaxed() by {
                if i < prev.len() {
                    assert(r@[i] == prev[i]);
                }
            }
        }
        k += 1;
    }
    r
}

} // verus!
