//! Statement nodes of the stable tree.
use vstd::prelude::*;
use crate::expr::ExprKind;
use crate::ids::{ItemId, PatId, SpanId, StmtId, TyId};

verus! {

/// The data that every statement node carries: its id and the id of its span.
#[derive(Clone, Copy, Debug, PartialEq, Eq, Structural)]
pub struct CommonStmtData {
    id: StmtId,
    span: SpanId,
}

impl CommonStmtData {
    pub closed spec fn spec_id(self) -> StmtId {
        self.id
    }

    pub closed spec fn spec_span(self) -> SpanId {
        self.span
    }

    pub fn new(id: StmtId, span: SpanId) -> (r: Self)
        ensures
            r.spec_id() == id,
            r.spec_span() == span,
    {
        CommonStmtData { id, span }
    }

    pub fn id(&self) -> (r: StmtId)
        ensures
            r == self.spec_id(),
    {
        self.id
    }

    pub fn span(&self) -> (r: SpanId)
        ensures
            r == self.spec_span(),
    {
        self.span
    }
}

/// A `let` statement: `let pat: ty = init else { els };`.
#[derive(Clone, Copy, Debug, PartialEq, Eq, Structural)]
pub struct LetStmt {
    data: CommonStmtData,
    pat: PatId,
    ty: Option<TyId>,
    init: Option<ExprKind>,
    els: Option<ExprKind>,
}

/// An expression used as a statement.
#[derive(Clone, Copy, Debug, PartialEq, Eq, Structural)]
pub struct ExprStmt {
    data: CommonStmtData,
    expr: ExprKind,
}

/// An item declared inside a block; the item is addressed by its id.
#[derive(Clone, Copy, Debug, PartialEq, Eq, Structural)]
pub struct ItemStmt {
    data: CommonStmtData,
    item: ItemId,
}

/// The tagged union over all statement nodes.
#[derive(Clone, Copy, Debug, PartialEq, Eq, Structural)]
#[non_exhaustive]
pub enum StmtKind {
    Item(ItemStmt),
    Let(LetStmt),
    Expr(ExprStmt),
}

/// Methods that all concrete statements share.
pub trait StmtData: Sized {
    spec fn spec_data(&self) -> CommonStmtData;

    spec fn spec_as_stmt(&self) -> StmtKind;

    /// Narrows a tagged statement back to this concrete type.
    spec fn spec_narrow(kind: StmtKind) -> Option<Self>;

    fn id(&self) -> (r: StmtId)
        ensures
            r == self.spec_data().spec_id(),
    ;

    fn span(&self) -> (r: SpanId)
        ensures
            r == self.spec_data().spec_span(),
    ;

    /// Wraps this statement in its [`StmtKind`] variant.
    fn as_stmt(&self) -> (r: StmtKind)
        ensures
            r == self.spec_as_stmt(),
    ;

    /// Returns the concrete statement if `kind` is of this type.
    fn narrow(kind: StmtKind) -> (r: Option<Self>)
        ensures
            r == Self::spec_narrow(kind),
    ;

    /// Narrowing the wrapped statement gives the statement back.
    proof fn lemma_narrow_as_stmt(&self)
        ensures
            Self::spec_narrow(self.spec_as_stmt()) == Some(*self),
            self.spec_as_stmt().spec_data() == self.spec_data(),
    ;
}

impl StmtKind {
    /// The common data of the wrapped node.
    pub closed spec fn spec_data(self) -> CommonStmtData {
        match self {
            StmtKind::Item(s) => s.data,
            StmtKind::Let(s) => s.data,
            StmtKind::Expr(s) => s.data,
        }
    }

    pub fn id(&self) -> (r: StmtId)
        ensures
            r == self.spec_data().spec_id(),
    {
        match self {
            StmtKind::Item(s) => s.id(),
            StmtKind::Let(s) => s.id(),
            StmtKind::Expr(s) => s.id(),
        }
    }

    /// The id of the span; its text is looked up in the session.
    pub fn span(&self) -> (r: SpanId)
        ensures
            r == self.spec_data().spec_span(),
    {
        match self {
            StmtKind::Item(s) => s.span(),
            StmtKind::Let(s) => s.span(),
            StmtKind::Expr(s) => s.span(),
        }
    }

    /// The attributes attached to this statement. Statements carry none in
    /// this model yet, so this returns nothing.
    pub fn attrs(&self) {
    }
}

impl LetStmt {
    pub fn new(
        data: CommonStmtData,
        pat: PatId,
        ty: Option<TyId>,
        init: Option<ExprKind>,
        els: Option<ExprKind>,
    ) -> (r: Self)
        ensures
            r.spec_data() == data,
            r.spec_pat() == pat,
            r.spec_ty() == ty,
            r.spec_init() == init,
            r.spec_els() == els,
    {
        LetStmt { data, pat, ty, init, els }
    }

    pub closed spec fn spec_pat(self) -> PatId {
        self.pat
    }

    /// The pattern that the value is bound to.
    pub fn pat(&self) -> (r: PatId)
        ensures
            r == self.spec_pat(),
    {
        self.pat
    }

    pub closed spec fn spec_ty(self) -> Option<TyId> {
        self.ty
    }

    /// The declared type, if one was written.
    pub fn ty(&self) -> (r: Option<TyId>)
        ensures
            r == self.spec_ty(),
    {
        self.ty
    }

    pub closed spec fn spec_init(self) -> Option<ExprKind> {
        self.init
    }

    /// The initializer, if any.
    pub fn init(&self) -> (r: Option<ExprKind>)
        ensures
            r == self.spec_init(),
    {
        self.init
    }

    pub closed spec fn spec_els(self) -> Option<ExprKind> {
        self.els
    }

    /// The `else` block of a `let ... else`, if any.
    pub fn els(&self) -> (r: Option<ExprKind>)
        ensures
            r == self.spec_els(),
    {
        self.els
    }
}

impl StmtData for LetStmt {
    closed spec fn spec_data(&self) -> CommonStmtData {
        self.data
    }

    open spec fn spec_as_stmt(&self) -> StmtKind {
        StmtKind::Let(*self)
    }

    open spec fn spec_narrow(kind: StmtKind) -> Option<Self> {
        match kind {
            StmtKind::Let(s) => Some(s),
            _ => None,
        }
    }

    fn id(&self) -> (r: StmtId) {
        self.data.id()
    }

    fn span(&self) -> (r: SpanId) {
        self.data.span()
    }

    fn as_stmt(&self) -> (r: StmtKind) {
        StmtKind::Let(*self)
    }

    fn narrow(kind: StmtKind) -> (r: Option<Self>) {
        match kind {
            StmtKind::Let(s) => Some(s),
            _ => None,
        }
    }

    proof fn lemma_narrow_as_stmt(&self) {
    }
}

impl ExprStmt {
    pub fn new(data: CommonStmtData, expr: ExprKind) -> (r: Self)
        ensures
            r.spec_data() == data,
            r.spec_expr() == expr,
    {
        ExprStmt { data, expr }
    }

    pub closed spec fn spec_expr(self) -> ExprKind {
        self.expr
    }

    /// The expression.
    pub fn expr(&self) -> (r: ExprKind)
        ensures
            r == self.spec_expr(),
    {
        self.expr
    }
}

impl StmtData for ExprStmt {
    closed spec fn spec_data(&self) -> CommonStmtData {
        self.data
    }

    open spec fn spec_as_stmt(&self) -> StmtKind {
        StmtKind::Expr(*self)
    }

    open spec fn spec_narrow(kind: StmtKind) -> Option<Self> {
        match kind {
            StmtKind::Expr(s) => Some(s),
            _ => None,
        }
    }

    fn id(&self) -> (r: StmtId) {
        self.data.id()
    }

    fn span(&self) -> (r: SpanId) {
        self.data.span()
    }

    fn as_stmt(&self) -> (r: StmtKind) {
        StmtKind::Expr(*self)
    }

    fn narrow(kind: StmtKind) -> (r: Option<Self>) {
        match kind {
            StmtKind::Expr(s) => Some(s),
            _ => None,
        }
    }

    proof fn lemma_narrow_as_stmt(&self) {
    }
}

impl ItemStmt {
    pub fn new(data: CommonStmtData, item: ItemId) -> (r: Self)
        ensures
            r.spec_data() == data,
            r.spec_item() == item,
    {
        ItemStmt { data, item }
    }

    pub closed spec fn spec_item(self) -> ItemId {
        self.item
    }

    /// The id of the declared item, resolved through the session.
    pub fn item(&self) -> (r: ItemId)
        ensures
            r == self.spec_item(),
    {
        self.item
    }
}

impl StmtData for ItemStmt {
    closed spec fn spec_data(&self) -> CommonStmtData {
        self.data
    }

    open spec fn spec_as_stmt(&self) -> StmtKind {
        StmtKind::Item(*self)
    }

    open spec fn spec_narrow(kind: StmtKind) -> Option<Self> {
        match kind {
            StmtKind::Item(s) => Some(s),
            _ => None,
        }
    }

    fn id(&self) -> (r: StmtId) {
        self.data.id()
    }

    fn span(&self) -> (r: SpanId) {
        self.data.span()
    }

    fn as_stmt(&self) -> (r: StmtKind) {
        StmtKind::Item(*self)
    }

    fn narrow(kind: StmtKind) -> (r: Option<Self>) {
        match kind {
            StmtKind::Item(s) => Some(s),
            _ => None,
        }
    }

    proof fn lemma_narrow_as_stmt(&self) {
    }
}

/// For every concrete statement type, wrapping a node in its [`StmtKind`]
/// variant and narrowing back yields the same node.
pub proof fn lemma_stmt_round_trip<T: StmtData>(node: T)
    ensures
        T::spec_narrow(node.spec_as_stmt()) == Some(node),
        node.spec_as_stmt().spec_data() == node.spec_data(),
{
    node.lemma_narrow_as_stmt();
}

} // verus!
