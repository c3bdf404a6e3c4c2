use marker::expr::{ExprKind, ExprPrecedence, UnaryOpKind};
use marker::ids::{BodyId, ExprId, FieldId, ItemId, SpanId, SymbolId, TyId, VariantId};
use marker::item::{Abi, AdtKind, AssocItemKind, ExternItemKind, ItemKind, UseKind};
use marker::session::{is_compiler_generated, to_expr, SessionContext};
use marker::generics::GenericParamKind;
use marker::session::SpanInfo;
use marker::item::{Visibility, VisibilityKind};
use marker::source::{
    SourceVisibility, SourceGenericBound, SourceGenericParam, SourceGenericParamKind, SourceParamName, SourceGenerics, SourceParam, ExpnKind, SourceAbi, SourceForeignItem, SourceForeignItemKind, SourceBody, SourceFnSig, SourceRetTy, SourceField, SourceVariant, SourceVariantData, SourceExpr, SourceExprKind, SourceItem, SourceItemKind, SourceSpan,
    SourceUseKind,
};

fn sig() -> SourceFnSig {
    SourceFnSig {
        is_const: false,
        is_async: false,
        is_unsafe: false,
        is_foreign: false,
        has_self: false,
        abi: SourceAbi::Rust,
        output: None,
    }
}

fn span(handle: u64) -> SourceSpan {
    SourceSpan { handle, expansion: None }
}

fn no_generics() -> SourceGenerics {
    SourceGenerics { params: vec![], predicates: vec![] }
}

fn private() -> SourceVisibility {
    SourceVisibility { span: None, kind: VisibilityKind::Private }
}

fn item(owner: u64, kind: SourceItemKind) -> SourceItem {
    SourceItem { owner, span: span(100 + owner), name: SymbolId { raw: 1000 + owner }, vis: private(), kind, generics: no_generics() }
}

fn param(handle: u64) -> SourceParam {
    SourceParam { span: span(handle), pat: handle + 1, ty: handle + 2 }
}

#[test]
fn converting_an_item_twice_returns_the_cached_node() {
    let mut cx = SessionContext::new();
    let src = item(3, SourceItemKind::ExternCrate { original_name: Some(SymbolId { raw: 77 }) });
    assert_eq!(cx.to_item(&src), Some(ItemId { raw: 3 }));
    assert_eq!(cx.item_count(), 1);
    assert_eq!(cx.to_item(&src), Some(ItemId { raw: 3 }));
    assert_eq!(cx.item_count(), 1);
    match cx.item(ItemId { raw: 3 }) {
        Some(ItemKind::ExternCrate(e)) => {
            assert_eq!(e.get_crate_name(), SymbolId { raw: 77 });
            assert_eq!(e.data().ident(), SymbolId { raw: 1003 });
            assert_eq!(e.data().span(), SpanId { raw: 103 });
        },
        _ => panic!("expected an extern crate item"),
    }
}

#[test]
fn extern_crate_without_alias_keeps_its_name() {
    let mut cx = SessionContext::new();
    cx.to_item(&item(4, SourceItemKind::ExternCrate { original_name: None }));
    match cx.item(ItemId { raw: 4 }) {
        Some(ItemKind::ExternCrate(e)) => assert_eq!(e.get_crate_name(), SymbolId { raw: 1004 }),
        _ => panic!("expected an extern crate item"),
    }
}

#[test]
fn dropped_items_get_no_node() {
    let mut cx = SessionContext::new();
    let generated = SourceItem {
        owner: 1,
        span: SourceSpan { handle: 9, expansion: Some(ExpnKind::AstPass) },
        name: SymbolId { raw: 0 },
        vis: private(),
        kind: SourceItemKind::Fn { sig: sig(), params: vec![], body: Some(2) },
        generics: no_generics(),
    };
    assert!(is_compiler_generated(generated.span));
    assert!(!is_compiler_generated(SourceSpan { handle: 9, expansion: Some(ExpnKind::Macro) }));
    assert_eq!(cx.to_item(&generated), None);
    assert_eq!(cx.to_item(&item(2, SourceItemKind::Use { kind: SourceUseKind::ListStem })), None);
    assert_eq!(cx.to_item(&item(3, SourceItemKind::Macro)), None);
    assert_eq!(cx.to_item(&item(4, SourceItemKind::GlobalAsm)), None);
    assert_eq!(cx.item_count(), 0);
    assert!(cx.item(ItemId { raw: 1 }).is_none());
}

#[test]
fn macro_expanded_item_is_converted() {
    let mut cx = SessionContext::new();
    let expanded = SourceItem {
        owner: 5,
        span: SourceSpan { handle: 9, expansion: Some(ExpnKind::Macro) },
        name: SymbolId { raw: 0 },
        vis: private(),
        kind: SourceItemKind::Const { body: Some(6) },
        generics: no_generics(),
    };
    assert_eq!(cx.to_item(&expanded), Some(ItemId { raw: 5 }));
    match cx.item(ItemId { raw: 5 }) {
        Some(ItemKind::Const(c)) => assert_eq!(c.body(), Some(BodyId { raw: 6 })),
        _ => panic!("expected a const item"),
    }
}

#[test]
fn to_items_keeps_order_and_skips_dropped() {
    let mut cx = SessionContext::new();
    let srcs = vec![
        item(10, SourceItemKind::Mod { items: vec![11, 12] }),
        item(11, SourceItemKind::Use { kind: SourceUseKind::Glob }),
        item(12, SourceItemKind::Macro),
        item(13, SourceItemKind::Static { mutable: true, body: Some(1) }),
        item(14, SourceItemKind::Unstable { feature: Some(SymbolId { raw: 5 }) }),
        item(11, SourceItemKind::Use { kind: SourceUseKind::Glob }),
    ];
    let ids = cx.to_items(&srcs);
    let expected: Vec<ItemId> = [10, 11, 13, 14, 11].iter().map(|&raw| ItemId { raw }).collect();
    assert_eq!(ids, expected);
    assert_eq!(cx.item_count(), 4);
    match cx.item(ItemId { raw: 10 }) {
        Some(ItemKind::Mod(m)) => assert_eq!(m.items(), &vec![ItemId { raw: 11 }, ItemId { raw: 12 }]),
        _ => panic!("expected a module"),
    }
    match cx.item(ItemId { raw: 11 }) {
        Some(ItemKind::Use(u)) => assert_eq!(u.kind(), UseKind::Glob),
        _ => panic!("expected a use item"),
    }
    match cx.item(ItemId { raw: 13 }) {
        Some(ItemKind::Static(s)) => {
            assert!(s.mutable());
            assert_eq!(s.body(), Some(BodyId { raw: 1 }));
        },
        _ => panic!("expected a static item"),
    }
    match cx.item(ItemId { raw: 14 }) {
        Some(ItemKind::Unstable(u)) => assert_eq!(u.feature(), Some(SymbolId { raw: 5 })),
        _ => panic!("expected an unstable item"),
    }
}

#[test]
fn fresh_session_starts_empty() {
    let mut first = SessionContext::new();
    first.to_item(&item(1, SourceItemKind::Fn { sig: sig(), params: vec![], body: Some(1) }));
    drop(first);
    let second = SessionContext::new();
    assert_eq!(second.item_count(), 0);
    assert_eq!(second.body_count(), 0);
    assert!(second.item(ItemId { raw: 1 }).is_none());
    assert!(second.body(BodyId { raw: 1 }).is_none());
}

fn expr(handle: u64, kind: SourceExprKind) -> SourceExpr {
    SourceExpr { handle, span: span(500 + handle), kind }
}

#[test]
fn expressions_convert_by_kind() {
    match to_expr(&expr(1, SourceExprKind::Int(42))) {
        ExprKind::IntLit(e) => assert_eq!(e.value(), 42),
        _ => panic!("expected an integer literal"),
    }
    match to_expr(&expr(2, SourceExprKind::Unary(UnaryOpKind::Not, 1))) {
        ExprKind::UnaryOp(e) => {
            assert_eq!(e.kind(), UnaryOpKind::Not);
            assert_eq!(e.operand(), ExprId { raw: 1 });
        },
        _ => panic!("expected a unary expression"),
    }
    let unsupported = to_expr(&expr(3, SourceExprKind::Unsupported));
    assert!(matches!(unsupported, ExprKind::Unstable(_)));
    assert_eq!(unsupported.precedence(), ExprPrecedence::Unstable(0));
    assert_eq!(unsupported.id(), ExprId { raw: 3 });
    assert_eq!(unsupported.span(), SpanId { raw: 503 });
    let path = to_expr(&expr(4, SourceExprKind::Path(SymbolId { raw: 8 })));
    assert_eq!(path.precedence(), ExprPrecedence::Path);
    let neg = to_expr(&expr(5, SourceExprKind::Unary(UnaryOpKind::Neg, 1)));
    assert_eq!(neg.precedence(), ExprPrecedence::Neg);
}

#[test]
fn bodies_are_cached_by_id() {
    let mut cx = SessionContext::new();
    let src = SourceBody { handle: 7, owner: 3, is_coroutine: false, value: expr(9, SourceExprKind::Bool(true)) };
    let first = cx.to_body(&src);
    let second = cx.to_body(&src);
    assert_eq!(first, second);
    assert_eq!(cx.body_count(), 1);
    assert_eq!(first.id(), BodyId { raw: 7 });
    assert_eq!(first.owner(), ItemId { raw: 3 });
    match first.value() {
        ExprKind::BoolLit(b) => assert!(b.value()),
        _ => panic!("expected a boolean literal"),
    }
    assert_eq!(cx.body(BodyId { raw: 7 }), Some(first));
}

#[test]
fn coroutine_body_is_unstable_and_cached() {
    let mut cx = SessionContext::new();
    let src = SourceBody { handle: 8, owner: 3, is_coroutine: true, value: expr(9, SourceExprKind::Int(1)) };
    let first = cx.to_body(&src);
    assert!(matches!(first.value(), ExprKind::Unstable(_)));
    assert_eq!(first.value().id(), ExprId { raw: 9 });
    assert_eq!(first.value().precedence(), ExprPrecedence::Unstable(0));
    assert_eq!(cx.to_body(&src), first);
    assert_eq!(cx.body_count(), 1);
}

#[test]
fn assoc_item_reached_twice_is_one_node() {
    let mut cx = SessionContext::new();
    let method = item(20, SourceItemKind::Fn { sig: sig(), params: vec![], body: Some(21) });
    let first = match cx.to_assoc_item(&method) {
        Some(AssocItemKind::Fn(f)) => format!("{:p}", f),
        _ => panic!("expected a function"),
    };
    match cx.to_assoc_item(&method) {
        Some(AssocItemKind::Fn(f)) => {
            assert_eq!(first, format!("{:p}", f));
            assert_eq!(f.body(), Some(BodyId { raw: 21 }));
        },
        _ => panic!("expected a function"),
    }
    assert_eq!(cx.item_count(), 1);
    assert_eq!(cx.to_assoc_item(&method).unwrap().id(), ItemId { raw: 20 });
    let module = item(22, SourceItemKind::Mod { items: vec![] });
    assert!(cx.to_assoc_item(&module).is_none());
    let alias = item(23, SourceItemKind::TyAlias { bounds: vec![], ty: Some(24) });
    match cx.to_assoc_item(&alias) {
        Some(AssocItemKind::TyAlias(t)) => {
            assert!(t.bounds().is_empty());
            assert_eq!(t.ty(), Some(TyId { raw: 24 }));
        },
        _ => panic!("expected a type alias"),
    }
    let trait_const = item(25, SourceItemKind::Const { body: None });
    assert!(matches!(cx.to_assoc_item(&trait_const), Some(AssocItemKind::Const(c)) if c.body().is_none()));
    assert_eq!(cx.item_count(), 4);
}

fn foreign(owner: u64, kind: SourceForeignItemKind) -> SourceForeignItem {
    SourceForeignItem { owner, span: span(owner), name: SymbolId { raw: owner + 1 }, vis: private(), kind }
}

#[test]
fn extern_block_items() {
    let mut cx = SessionContext::new();
    let block = item(30, SourceItemKind::ForeignMod { abi: SourceAbi::C, items: vec![31, 32, 33] });
    cx.to_item(&block);
    match cx.item(ItemId { raw: 30 }) {
        Some(ItemKind::ExternBlock(b)) => {
            assert_eq!(b.abi(), Abi::C);
            assert_eq!(b.items(), &vec![ItemId { raw: 31 }, ItemId { raw: 32 }, ItemId { raw: 33 }]);
        },
        _ => panic!("expected an extern block"),
    }
    let f = foreign(31, SourceForeignItemKind::Fn { has_self: false, params: vec![param(40)], output: Some(5) });
    match cx.to_external_item(&f, SourceAbi::C) {
        Some(ExternItemKind::Fn(f)) => {
            assert!(f.is_extern());
            assert_eq!(f.body(), None);
            assert!(!f.is_const() && !f.is_async() && !f.is_unsafe());
            assert_eq!(f.abi(), Abi::C);
            assert_eq!(f.return_ty(), Some(TyId { raw: 5 }));
        },
        _ => panic!("expected a function"),
    }
    let s = foreign(32, SourceForeignItemKind::Static { mutable: true });
    match cx.to_external_item(&s, SourceAbi::C) {
        Some(ExternItemKind::Static(s)) => {
            assert!(s.mutable());
            assert_eq!(s.body(), None);
        },
        _ => panic!("expected a static"),
    }
    assert_eq!(cx.fn_params(ItemId { raw: 31 }).unwrap().len(), 1);
    let ty = foreign(33, SourceForeignItemKind::Type);
    assert!(matches!(cx.to_external_item(&ty, SourceAbi::C), Some(ExternItemKind::Unstable(_))));
    assert_eq!(cx.item_count(), 4);
    assert!(matches!(cx.to_external_item(&f, SourceAbi::Rust), Some(ExternItemKind::Fn(g)) if g.abi() == Abi::C));
    assert_eq!(cx.item_count(), 4);
}

#[test]
fn struct_fields_are_registered() {
    let mut cx = SessionContext::new();
    let src = item(30, SourceItemKind::Struct { data: SourceVariantData::Struct(vec![field(1), field(2)]) });
    assert_eq!(cx.to_item(&src), Some(ItemId { raw: 30 }));
    match cx.item(ItemId { raw: 30 }) {
        Some(ItemKind::Struct(s)) => match s.kind() {
            AdtKind::Field(ids) => assert_eq!(ids, &vec![FieldId { raw: 1 }, FieldId { raw: 2 }]),
            _ => panic!("expected named fields"),
        },
        _ => panic!("expected a struct"),
    }
    let f = cx.field(FieldId { raw: 2 }).unwrap();
    assert_eq!(f.name(), SymbolId { raw: 902 });
    assert_eq!(f.ty(), TyId { raw: 802 });
    assert_eq!(f.span(), SpanId { raw: 702 });
    assert!(cx.field(FieldId { raw: 3 }).is_none());
    let unit = item(31, SourceItemKind::Struct { data: SourceVariantData::Unit });
    cx.to_item(&unit);
    assert!(matches!(cx.item(ItemId { raw: 31 }), Some(ItemKind::Struct(s)) if matches!(s.kind(), AdtKind::Unit)));
}

#[test]
fn enum_variants_are_registered_once() {
    let mut cx = SessionContext::new();
    let variants = vec![
        SourceVariant { handle: 1, name: SymbolId { raw: 11 }, span: span(12), data: SourceVariantData::Unit },
        SourceVariant { handle: 2, name: SymbolId { raw: 21 }, span: span(22), data: SourceVariantData::Tuple(vec![field(5)]) },
    ];
    let src = item(40, SourceItemKind::Enum { variants });
    assert_eq!(cx.to_item(&src), Some(ItemId { raw: 40 }));
    assert_eq!(cx.to_item(&src), Some(ItemId { raw: 40 }));
    match cx.item(ItemId { raw: 40 }) {
        Some(ItemKind::Enum(e)) => assert_eq!(e.variants(), &vec![VariantId { raw: 1 }, VariantId { raw: 2 }]),
        _ => panic!("expected an enum"),
    }
    let v = cx.variant(VariantId { raw: 2 }).unwrap();
    assert_eq!(v.name(), SymbolId { raw: 21 });
    assert_eq!(v.span(), SpanId { raw: 22 });
    match v.kind() {
        AdtKind::Tuple(ids) => assert_eq!(ids, &vec![FieldId { raw: 5 }]),
        _ => panic!("expected a tuple variant"),
    }
    assert!(cx.field(FieldId { raw: 5 }).is_some());
    assert!(cx.variant(VariantId { raw: 3 }).is_none());
}

#[test]
fn item_from_id_takes_the_first_match() {
    let mut cx = SessionContext::new();
    let krate = vec![
        item(50, SourceItemKind::Const { body: Some(1) }),
        item(51, SourceItemKind::Fn { sig: sig(), params: vec![], body: Some(2) }),
        item(51, SourceItemKind::Const { body: Some(3) }),
    ];
    assert_eq!(cx.to_item_from_id(&krate, ItemId { raw: 51 }), Some(ItemId { raw: 51 }));
    assert!(matches!(cx.item(ItemId { raw: 51 }), Some(ItemKind::Fn(_))));
    assert_eq!(cx.to_item_from_id(&krate, ItemId { raw: 52 }), None);
    assert_eq!(cx.item_count(), 1);
}

#[test]
fn async_fn_returns_its_future_output() {
    let mut cx = SessionContext::new();
    let output = Some(SourceRetTy { ty: 60, future_output: Some(61) });
    let async_sig = SourceFnSig { is_async: true, output, ..sig() };
    cx.to_item(&item(60, SourceItemKind::Fn { sig: async_sig, params: vec![], body: Some(1) }));
    match cx.item(ItemId { raw: 60 }) {
        Some(ItemKind::Fn(f)) => {
            assert!(f.is_async());
            assert_eq!(f.return_ty(), Some(TyId { raw: 61 }));
            assert_eq!(f.body(), Some(BodyId { raw: 1 }));
            assert_eq!(f.abi(), Abi::Default);
        },
        _ => panic!("expected a function"),
    }
    let plain_sig = SourceFnSig { output, abi: SourceAbi::C, is_foreign: true, is_unsafe: true, ..sig() };
    cx.to_item(&item(62, SourceItemKind::Fn { sig: plain_sig, params: vec![], body: None }));
    match cx.item(ItemId { raw: 62 }) {
        Some(ItemKind::Fn(f)) => {
            assert_eq!(f.return_ty(), Some(TyId { raw: 60 }));
            assert_eq!(f.body(), None);
            assert_eq!(f.abi(), Abi::C);
            assert!(f.is_extern());
            assert!(f.is_unsafe());
            assert!(!f.is_const());
            assert!(!f.has_self());
        },
        _ => panic!("expected a function"),
    }
}

fn field(handle: u64) -> SourceField {
    SourceField { handle, name: SymbolId { raw: 900 + handle }, ty: 800 + handle, span: span(700 + handle) }
}

#[test]
fn functions_keep_generics_and_params() {
    let mut cx = SessionContext::new();
    let generics = SourceGenerics {
        params: vec![SourceGenericParam {
            def_id: 9,
            name: SourceParamName::Plain(SymbolId { raw: 8 }),
            span: span(7),
            kind: SourceGenericParamKind::Type { synthetic: false },
        }],
        predicates: vec![],
    };
    let src = SourceItem {
        owner: 70,
        span: span(71),
        name: SymbolId { raw: 72 },
        vis: SourceVisibility { span: Some(span(74)), kind: VisibilityKind::Public },
        kind: SourceItemKind::Fn { sig: sig(), params: vec![param(10), param(20)], body: Some(73) },
        generics,
    };
    cx.to_item(&src);
    match cx.item(ItemId { raw: 70 }) {
        Some(ItemKind::Fn(f)) => assert_eq!(
            f.data().vis(),
            Visibility { span: Some(SpanId { raw: 74 }), kind: VisibilityKind::Public }
        ),
        _ => panic!("expected a function"),
    }
    let params = cx.fn_params(ItemId { raw: 70 }).unwrap();
    assert_eq!(params.len(), 2);
    assert_eq!(params[1].span, SpanId { raw: 20 });
    assert_eq!(params[1].pat, marker::ids::PatId { raw: 21 });
    assert_eq!(params[1].ty, TyId { raw: 22 });
    let g = cx.generics(ItemId { raw: 70 }).unwrap();
    assert!(matches!(g.params()[0], GenericParamKind::Ty(t) if t.name() == SymbolId { raw: 8 }));
    assert!(cx.generics(ItemId { raw: 71 }).is_none());
    assert!(cx.fn_params(ItemId { raw: 71 }).is_none());
}

#[test]
fn traits_impls_and_unions() {
    let mut cx = SessionContext::new();
    let tr = item(80, SourceItemKind::Trait {
        is_unsafe: true,
        bounds: vec![SourceGenericBound::Trait { maybe: false, trait_def: 81, span: span(82) }],
        items: vec![83],
    });
    let im = item(84, SourceItemKind::Impl { is_unsafe: false, is_positive: true, trait_def: Some(80), self_ty: 85, items: vec![86] });
    let un = item(87, SourceItemKind::Union { fields: vec![field(88)] });
    cx.to_items(&vec![tr, im, un]);
    match cx.item(ItemId { raw: 80 }) {
        Some(ItemKind::Trait(t)) => {
            assert!(t.is_unsafe());
            assert_eq!(t.supertraits().len(), 1);
            assert_eq!(t.items(), &vec![ItemId { raw: 83 }]);
        },
        _ => panic!("expected a trait"),
    }
    match cx.item(ItemId { raw: 84 }) {
        Some(ItemKind::Impl(i)) => {
            assert!(i.is_positive() && !i.is_unsafe());
            assert_eq!(i.trait_id(), Some(ItemId { raw: 80 }));
            assert_eq!(i.self_ty(), TyId { raw: 85 });
            assert_eq!(i.items(), &vec![ItemId { raw: 86 }]);
        },
        _ => panic!("expected an impl"),
    }
    match cx.item(ItemId { raw: 87 }) {
        Some(ItemKind::Union(u)) => assert_eq!(u.fields(), &vec![FieldId { raw: 88 }]),
        _ => panic!("expected a union"),
    }
    assert!(cx.field(FieldId { raw: 88 }).is_some());
}

#[test]
fn spans_and_types_resolve_through_the_session() {
    let mut cx = SessionContext::new();
    let info = SpanInfo { file: SymbolId { raw: 1 }, lo: 10, hi: 20 };
    assert_eq!(cx.span(SpanId { raw: 5 }), None);
    cx.register_span(SpanId { raw: 5 }, info);
    assert_eq!(cx.span(SpanId { raw: 5 }), Some(info));
    cx.register_expr_ty(ExprId { raw: 6 }, TyId { raw: 7 });
    assert_eq!(cx.expr_ty(ExprId { raw: 6 }), Some(TyId { raw: 7 }));
    assert_eq!(cx.expr_ty(ExprId { raw: 8 }), None);
}
