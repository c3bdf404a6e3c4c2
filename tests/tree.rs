use marker::attrs::{to_attribute, AttrInput, MacroTokenStream};
use marker::expr::{
    CommonExprData, ConstExpr, ExprData, ExprPrecedence, IntLitExpr, LitExprKind,
    StrLitExpr, UnaryOpExpr, UnaryOpKind, UnstableExpr,
};
use marker::dispatch::{callback_plan, Callback};
use marker::ids::{ExprId, ItemId, PatId, SpanId, StmtId, SymbolId, TyId};
use marker::item::{Abi, CommonItemData, ExternCrateItem, FnItem, ItemKind, Visibility, VisibilityKind};
use marker::source::{SourceAttrKind, SourceAttribute, SourceSpan};
use marker::stmt::{CommonStmtData, ExprStmt, ItemStmt, LetStmt, StmtData, StmtKind};

fn data(id: u64) -> CommonExprData {
    CommonExprData::new(ExprId { raw: id }, SpanId { raw: 10 * id })
}

#[test]
fn expression_round_trip() {
    let int = IntLitExpr::new(data(1), 5);
    assert_eq!(IntLitExpr::narrow(int.as_expr()), Some(int));
    assert_eq!(StrLitExpr::narrow(int.as_expr()), None);
    let unstable = UnstableExpr::new(data(2), ExprPrecedence::Unstable(3));
    assert_eq!(UnstableExpr::narrow(unstable.as_expr()), Some(unstable));
    assert_eq!(unstable.as_expr().precedence(), ExprPrecedence::Unstable(3));
    assert_eq!(int.as_expr().id(), ExprId { raw: 1 });
    assert_eq!(int.as_expr().span(), SpanId { raw: 10 });
    assert_eq!(int.precedence(), ExprPrecedence::Lit);
    let c = ConstExpr::new(int.as_expr());
    assert_eq!(c.expr(), int.as_expr());
}

#[test]
fn statement_round_trip() {
    let d = CommonStmtData::new(StmtId { raw: 4 }, SpanId { raw: 40 });
    let init = IntLitExpr::new(data(1), 5).as_expr();
    let let_stmt = LetStmt::new(d, PatId { raw: 1 }, Some(TyId { raw: 2 }), Some(init), None);
    assert_eq!(LetStmt::narrow(let_stmt.as_stmt()), Some(let_stmt));
    assert_eq!(ExprStmt::narrow(let_stmt.as_stmt()), None);
    assert_eq!(let_stmt.pat(), PatId { raw: 1 });
    assert_eq!(let_stmt.ty(), Some(TyId { raw: 2 }));
    assert_eq!(let_stmt.init(), Some(init));
    assert_eq!(let_stmt.els(), None);
    let kind: StmtKind = let_stmt.as_stmt();
    assert_eq!(kind.id(), StmtId { raw: 4 });
    assert_eq!(kind.span(), SpanId { raw: 40 });
    kind.attrs();
    let expr_stmt = ExprStmt::new(d, init);
    assert_eq!(expr_stmt.expr(), init);
    assert_eq!(ExprStmt::narrow(expr_stmt.as_stmt()), Some(expr_stmt));
    let item_stmt = ItemStmt::new(d, ItemId { raw: 9 });
    assert_eq!(item_stmt.item(), ItemId { raw: 9 });
    assert_eq!(ItemStmt::narrow(item_stmt.as_stmt()), Some(item_stmt));
}

#[test]
fn literal_narrowing() {
    let one = IntLitExpr::new(data(1), 1);
    let lit = LitExprKind::try_from_expr(one.as_expr(), None).unwrap();
    assert_eq!(lit, LitExprKind::Int(one));
    assert_eq!(lit.to_expr_kind(), one.as_expr());
    let neg = UnaryOpExpr::new(data(2), UnaryOpKind::Neg, ExprId { raw: 1 });
    assert_eq!(LitExprKind::try_from_expr(neg.as_expr(), Some(lit)), Some(LitExprKind::UnaryOp(neg)));
    assert_eq!(LitExprKind::try_from_expr(neg.as_expr(), None), None);
    let other = UnaryOpExpr::new(data(3), UnaryOpKind::Neg, ExprId { raw: 7 });
    assert_eq!(LitExprKind::try_from_expr(other.as_expr(), Some(lit)), None);
    let not = UnaryOpExpr::new(data(4), UnaryOpKind::Not, ExprId { raw: 1 });
    assert_eq!(LitExprKind::try_from_expr(not.as_expr(), Some(lit)), None);
    let unstable = UnstableExpr::new(data(5), ExprPrecedence::Unstable(0));
    assert_eq!(LitExprKind::try_from_expr(unstable.as_expr(), Some(lit)), None);
    assert_eq!(LitExprKind::UnaryOp(neg).precedence(), ExprPrecedence::Neg);
    assert_eq!(LitExprKind::UnaryOp(neg).id(), ExprId { raw: 2 });
}

#[test]
fn token_stream_parses_once() {
    let mut tokens = MacroTokenStream::new("a + b".to_string());
    assert_eq!(tokens.as_str_repr(), "a + b");
    let first = tokens.as_proc_macro2_repr().as_ref().map(|t| t.to_string()).map_err(|_| ());
    assert_eq!(first, Ok("a + b".to_string()));
    let second = tokens.as_proc_macro2_repr().as_ref().map(|t| t.to_string()).map_err(|_| ());
    assert_eq!(first, second);
}

#[test]
fn token_stream_failure_is_kept() {
    let mut tokens = MacroTokenStream::new("(a, b".to_string());
    assert!(tokens.as_proc_macro2_repr().is_err());
    assert!(tokens.as_proc_macro2_repr().is_err());
    assert_eq!(tokens.as_str_repr(), "(a, b");
}

#[test]
fn doc_comment_becomes_doc_attribute() {
    let doc = SymbolId { raw: 1 };
    let src = SourceAttribute {
        is_outer: true,
        kind: SourceAttrKind::DocComment(SymbolId { raw: 2 }),
        span: SourceSpan { handle: 3, expansion: None },
    };
    let attr = to_attribute(src, doc);
    assert!(attr.is_outer());
    assert!(!attr.is_inner());
    assert_eq!(attr.path(), &vec![doc]);
    assert!(matches!(attr.input(), AttrInput::Expr(s) if *s == SymbolId { raw: 2 }));
    assert_eq!(attr.span(), SpanId { raw: 3 });
}

#[test]
fn normal_attribute_keeps_path_and_value() {
    let path = vec![SymbolId { raw: 4 }, SymbolId { raw: 5 }];
    let inner = SourceAttribute {
        is_outer: false,
        kind: SourceAttrKind::Normal { path: path.clone(), value: None },
        span: SourceSpan { handle: 6, expansion: None },
    };
    let attr = to_attribute(inner, SymbolId { raw: 1 });
    assert!(attr.is_inner());
    assert_eq!(attr.path(), &path);
    assert!(matches!(attr.input(), AttrInput::NoInput));
    let with_value = SourceAttribute {
        is_outer: true,
        kind: SourceAttrKind::Normal { path, value: Some(SymbolId { raw: 7 }) },
        span: SourceSpan { handle: 6, expansion: None },
    };
    let attr = to_attribute(with_value, SymbolId { raw: 1 });
    assert!(matches!(attr.input(), AttrInput::Expr(s) if *s == SymbolId { raw: 7 }));
}

#[test]
fn callbacks_come_in_order() {
    let d = CommonItemData::new(ItemId { raw: 1 }, SpanId { raw: 2 }, SymbolId { raw: 3 }, Visibility { span: None, kind: VisibilityKind::Private });
    let krate = ItemKind::ExternCrate(ExternCrateItem::new(d, SymbolId { raw: 4 }));
    assert_eq!(
        callback_plan(&krate, 2),
        vec![Callback::Attr(0), Callback::Attr(1), Callback::Item, Callback::ExternCrate]
    );
    let f = ItemKind::Fn(FnItem::new(d, false, false, false, false, false, Abi::Default, None, None));
    assert_eq!(callback_plan(&f, 0), vec![Callback::Item]);
    assert_eq!(krate.id(), ItemId { raw: 1 });
    assert_eq!(krate.span(), SpanId { raw: 2 });
}
