use marker::generics::{
    to_sem_generic_args, to_sem_trait_bounds, SemGenericArgKind,
    to_generic_args, to_generic_args_from_path, to_generic_param_kinds, to_generic_params, to_lifetime,
    to_ty_param_bound, to_ty_param_bound_from_hir, GenericArgKind, GenericParamKind, LifetimeKind,
    TyParamBound, WhereClauseKind,
};
use marker::ids::{GenericId, ItemId, SpanId, SymbolId, TyId};
use marker::source::{
    SourceExistentialBounds, SourcePrincipal, SourceProjection, SourceSemArg,
    SourceGenericArg, SourceGenericArgKind, SourceGenericArgs, SourceGenericBound, SourceGenericParam,
    SourceGenericParamKind, SourceGenerics, SourceLifetime, SourceLifetimeName, SourceParamName,
    SourcePathSegment, SourcePolyTraitRef, SourceSpan, SourceTypeBinding, SourceWherePredicate,
};

fn span(handle: u64) -> SourceSpan {
    SourceSpan { handle, expansion: None }
}

fn lifetime(name: SourceLifetimeName) -> SourceLifetime {
    SourceLifetime { name, ident: SymbolId { raw: 1 }, span: span(2) }
}

fn named(param: u64) -> SourceLifetime {
    lifetime(SourceLifetimeName::Param { anonymous: false, param })
}

#[test]
fn lifetimes_convert_unless_unwritten() {
    let l = to_lifetime(&named(7)).unwrap();
    assert_eq!(l.kind(), LifetimeKind::Label(SymbolId { raw: 1 }, GenericId { raw: 7 }));
    assert_eq!(l.span(), Some(SpanId { raw: 2 }));
    assert_eq!(to_lifetime(&lifetime(SourceLifetimeName::Static)).unwrap().kind(), LifetimeKind::Static);
    assert_eq!(to_lifetime(&lifetime(SourceLifetimeName::Infer)).unwrap().kind(), LifetimeKind::Infer);
    assert!(to_lifetime(&lifetime(SourceLifetimeName::Param { anonymous: true, param: 7 })).is_none());
    assert!(to_lifetime(&lifetime(SourceLifetimeName::ImplicitObjectLifetimeDefault)).is_none());
}

fn param(def_id: u64, name: SourceParamName, kind: SourceGenericParamKind) -> SourceGenericParam {
    SourceGenericParam { def_id, name, span: span(10 + def_id), kind }
}

#[test]
fn only_written_parameters_are_kept() {
    let params = vec![
        param(1, SourceParamName::Plain(SymbolId { raw: 5 }), SourceGenericParamKind::Lifetime { explicit: true }),
        param(2, SourceParamName::Plain(SymbolId { raw: 6 }), SourceGenericParamKind::Lifetime { explicit: false }),
        param(3, SourceParamName::Plain(SymbolId { raw: 7 }), SourceGenericParamKind::Type { synthetic: false }),
        param(4, SourceParamName::Plain(SymbolId { raw: 8 }), SourceGenericParamKind::Type { synthetic: true }),
        param(5, SourceParamName::Fresh, SourceGenericParamKind::Type { synthetic: false }),
        param(6, SourceParamName::Plain(SymbolId { raw: 9 }), SourceGenericParamKind::Const),
    ];
    let kinds = to_generic_param_kinds(&params);
    assert_eq!(kinds.len(), 2);
    match kinds[0] {
        GenericParamKind::Lifetime(l) => {
            assert_eq!(l.id(), GenericId { raw: 1 });
            assert_eq!(l.name(), SymbolId { raw: 5 });
            assert_eq!(l.span(), Some(SpanId { raw: 11 }));
        },
        _ => panic!("expected a lifetime parameter"),
    }
    match kinds[1] {
        GenericParamKind::Ty(t) => {
            assert_eq!(t.id(), GenericId { raw: 3 });
            assert_eq!(t.name(), SymbolId { raw: 7 });
        },
        _ => panic!("expected a type parameter"),
    }
    assert!(to_generic_param_kinds(&vec![]).is_empty());
}

#[test]
fn bounds_convert_in_order() {
    let bounds = vec![
        SourceGenericBound::Trait { maybe: true, trait_def: 40, span: span(41) },
        SourceGenericBound::Outlives(lifetime(SourceLifetimeName::Param { anonymous: true, param: 1 })),
        SourceGenericBound::Outlives(lifetime(SourceLifetimeName::Static)),
    ];
    let converted = to_ty_param_bound(&bounds);
    assert_eq!(converted.len(), 2);
    match converted[0] {
        TyParamBound::TraitBound(t) => {
            assert!(t.is_relaxed());
            assert_eq!(t.trait_id(), ItemId { raw: 40 });
            assert_eq!(t.span(), SpanId { raw: 41 });
        },
        _ => panic!("expected a trait bound"),
    }
    assert!(matches!(converted[1], TyParamBound::Lifetime(l) if l.kind() == LifetimeKind::Static));
}

#[test]
fn trait_object_bounds_end_with_the_lifetime() {
    let traits = vec![SourcePolyTraitRef { trait_def: 50, span: span(51) }];
    let with_lifetime = to_ty_param_bound_from_hir(&traits, &lifetime(SourceLifetimeName::Static));
    assert_eq!(with_lifetime.len(), 2);
    assert!(matches!(with_lifetime[0], TyParamBound::TraitBound(t) if !t.is_relaxed() && t.trait_id() == ItemId { raw: 50 }));
    assert!(matches!(with_lifetime[1], TyParamBound::Lifetime(_)));
    let implicit = to_ty_param_bound_from_hir(&traits, &lifetime(SourceLifetimeName::ImplicitObjectLifetimeDefault));
    assert_eq!(implicit.len(), 1);
}

#[test]
fn where_clauses_convert() {
    let generics = SourceGenerics {
        params: vec![param(3, SourceParamName::Plain(SymbolId { raw: 7 }), SourceGenericParamKind::Type { synthetic: false })],
        predicates: vec![
            SourceWherePredicate::Bound {
                params: vec![],
                bounded_ty: 60,
                bounds: vec![SourceGenericBound::Trait { maybe: false, trait_def: 61, span: span(62) }],
            },
            SourceWherePredicate::Region { lifetime: lifetime(SourceLifetimeName::Param { anonymous: true, param: 1 }), outlives: vec![] },
            SourceWherePredicate::Region { lifetime: named(8), outlives: vec![named(9), lifetime(SourceLifetimeName::Static)] },
        ],
    };
    let converted = to_generic_params(&generics);
    assert_eq!(converted.params().len(), 1);
    let clauses = converted.clauses();
    assert_eq!(clauses.len(), 2);
    match &clauses[0] {
        WhereClauseKind::Ty(t) => {
            assert_eq!(t.ty(), TyId { raw: 60 });
            assert!(t.params().is_empty());
            assert_eq!(t.bounds().len(), 1);
        },
        _ => panic!("expected a type clause"),
    }
    match &clauses[1] {
        WhereClauseKind::Lifetime(l) => {
            assert_eq!(l.lifetime().kind(), LifetimeKind::Label(SymbolId { raw: 1 }, GenericId { raw: 8 }));
            assert_eq!(l.bounds().len(), 2);
        },
        _ => panic!("expected a lifetime clause"),
    }
}

#[test]
fn generic_args_then_bindings() {
    let args = SourceGenericArgs {
        args: vec![
            SourceGenericArg { synthetic: false, kind: SourceGenericArgKind::Type(70) },
            SourceGenericArg { synthetic: true, kind: SourceGenericArgKind::Type(71) },
            SourceGenericArg { synthetic: false, kind: SourceGenericArgKind::Lifetime(named(3)) },
        ],
        bindings: vec![SourceTypeBinding { span: span(72), name: SymbolId { raw: 73 }, ty: 74 }],
    };
    let converted = to_generic_args(Some(&args));
    let list = converted.args();
    assert_eq!(list.len(), 3);
    assert_eq!(list[0], GenericArgKind::Ty(TyId { raw: 70 }));
    assert!(matches!(list[1], GenericArgKind::Lifetime(_)));
    assert_eq!(list[2], GenericArgKind::Binding(Some(SpanId { raw: 72 }), SymbolId { raw: 73 }, TyId { raw: 74 }));
    assert!(to_generic_args(None).args().is_empty());
    let path = vec![
        SourcePathSegment { name: SymbolId { raw: 1 }, args: Some(args.clone()) },
        SourcePathSegment { name: SymbolId { raw: 2 }, args: None },
    ];
    assert!(to_generic_args_from_path(&path).args().is_empty());
    let path = vec![SourcePathSegment { name: SymbolId { raw: 1 }, args: Some(args) }];
    assert_eq!(to_generic_args_from_path(&path).args().len(), 3);
    assert!(to_generic_args_from_path(&vec![]).args().is_empty());
}

#[test]
fn semantic_bounds_main_trait_then_auto_traits() {
    let bounds = SourceExistentialBounds {
        principal: Some(SourcePrincipal { trait_def: 1, args: vec![SourceSemArg::Lifetime, SourceSemArg::Type(2)] }),
        projections: vec![SourceProjection { item_def: 3, ty: 4 }],
        auto_traits: vec![5, 6],
    };
    let converted = to_sem_trait_bounds(&bounds);
    assert_eq!(converted.len(), 3);
    assert_eq!(converted[0].trait_id(), ItemId { raw: 1 });
    assert_eq!(
        converted[0].args(),
        &vec![SemGenericArgKind::Ty(TyId { raw: 2 }), SemGenericArgKind::TyBinding(ItemId { raw: 3 }, TyId { raw: 4 })]
    );
    assert_eq!(converted[1].trait_id(), ItemId { raw: 5 });
    assert!(converted[2].args().is_empty());
    assert!(converted.iter().all(|b| !b.is_relaxed()));
    let only_auto = SourceExistentialBounds { principal: None, projections: vec![], auto_traits: vec![7] };
    assert_eq!(to_sem_trait_bounds(&only_auto)[0].trait_id(), ItemId { raw: 7 });
    assert!(to_sem_generic_args(&vec![SourceSemArg::Lifetime]).is_empty());
}
