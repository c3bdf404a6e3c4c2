//! Expression nodes of the stable tree.
//!
//! Every concrete expression embeds a [`CommonExprData`] and refers to its
//! children by [`ExprId`]; the session's arena resolves them. [`ExprKind`] is the
//! tagged union over the concrete expressions. Constructs that the model cannot
//! represent yet become [`UnstableExpr`], so consumers always need a fallback arm.
use vstd::prelude::*;
use crate::ids::{ExprId, SpanId, SymbolId};

verus! {

/// The data that every expression node carries: its id and the id of its span.
#[derive(Clone, Copy, Debug, PartialEq, Eq, Structural)]
pub struct CommonExprData {
    id: ExprId,
    span: SpanId,
}

impl CommonExprData {
    pub closed spec fn spec_id(self) -> ExprId {
        self.id
    }

    pub closed spec fn spec_span(self) -> SpanId {
        self.span
    }

    pub closed spec fn spec_new(id: ExprId, span: SpanId) -> Self {
        CommonExprData { id, span }
    }

    pub proof fn lemma_spec_new(id: ExprId, span: SpanId)
        ensures
            Self::spec_new(id, span).spec_id() == id,
            Self::spec_new(id, span).spec_span() == span,
    {
    }

    pub fn new(id: ExprId, span: SpanId) -> (r: Self)
        ensures
            r == Self::spec_new(id, span),
            r.spec_id() == id,
            r.spec_span() == span,
    {
        CommonExprData { id, span }
    }

    pub fn id(&self) -> (r: ExprId)
        ensures
            r == self.spec_id(),
    {
        self.id
    }

    pub fn span(&self) -> (r: SpanId)
        ensures
            r == self.spec_span(),
    {
        self.span
    }
}

/// How tightly an expression binds, from the literal level down to jumps.
#[derive(Clone, Copy, Debug, PartialEq, Eq, Structural)]
pub enum ExprPrecedence {
    Lit,
    Block,
    Ctor,
    Assign,
    For,
    Loop,
    While,
    Await,
    Path,
    Method,
    Call,
    If,
    Let,
    Match,
    Field,
    Fn,
    Index,
    Try,
    /// The unary `-` operator
    Neg,
    /// The `!` operator
    Not,
    /// The unary `*` operator
    Deref,
    /// The unary `&` operator
    Ref,
    As,
    Mul,
    Div,
    Rem,
    Add,
    Sub,
    Shr,
    Shl,
    BitAnd,
    BitXor,
    BitOr,
    /// The `==`, `!=`, `<`, `<=`, `>`, `>=` operators
    Comparison,
    And,
    Or,
    Range,
    /// Compound assignment operators such as `+=`
    AssignOp,
    Closure,
    Break,
    Return,
    Continue,
    /// The precedence comes from a construct that the model cannot represent
    /// yet; the value is its current precedence.
    Unstable(i32),
}

/// The operator of a unary expression.
#[derive(Clone, Copy, Debug, PartialEq, Eq, Structural)]
pub enum UnaryOpKind {
    /// `-x`
    Neg,
    /// `!x`
    Not,
    /// `*x`
    Deref,
}

/// An integer literal such as `42`.
#[derive(Clone, Copy, Debug, PartialEq, Eq, Structural)]
pub struct IntLitExpr {
    data: CommonExprData,
    value: u128,
}

/// A float literal; its text is kept as a symbol.
#[derive(Clone, Copy, Debug, PartialEq, Eq, Structural)]
pub struct FloatLitExpr {
    data: CommonExprData,
    text: SymbolId,
}

/// A string literal; its content is kept as a symbol.
#[derive(Clone, Copy, Debug, PartialEq, Eq, Structural)]
pub struct StrLitExpr {
    data: CommonExprData,
    text: SymbolId,
}

/// A character literal such as `'a'`.
#[derive(Clone, Copy, Debug, PartialEq, Eq, Structural)]
pub struct CharLitExpr {
    data: CommonExprData,
    value: char,
}

/// A boolean literal.
#[derive(Clone, Copy, Debug, PartialEq, Eq, Structural)]
pub struct BoolLitExpr {
    data: CommonExprData,
    value: bool,
}

/// A unary operation; the operand is addressed by its id.
#[derive(Clone, Copy, Debug, PartialEq, Eq, Structural)]
pub struct UnaryOpExpr {
    data: CommonExprData,
    kind: UnaryOpKind,
    operand: ExprId,
}

/// A path expression that names a binding or an item.
#[derive(Clone, Copy, Debug, PartialEq, Eq, Structural)]
pub struct PathExpr {
    data: CommonExprData,
    name: SymbolId,
}

/// An expression that the model cannot represent yet.
#[derive(Clone, Copy, Debug, PartialEq, Eq, Structural)]
pub struct UnstableExpr {
    data: CommonExprData,
    precedence: ExprPrecedence,
}

/// The tagged union over all expression nodes.
#[derive(Clone, Copy, Debug, PartialEq, Eq, Structural)]
#[non_exhaustive]
pub enum ExprKind {
    IntLit(IntLitExpr),
    FloatLit(FloatLitExpr),
    StrLit(StrLitExpr),
    CharLit(CharLitExpr),
    BoolLit(BoolLitExpr),
    UnaryOp(UnaryOpExpr),
    Path(PathExpr),
    Unstable(UnstableExpr),
}

/// The literal expressions. A negation of a literal counts as a literal, since
/// negative numbers are written as a positive literal under a unary `-`.
#[derive(Clone, Copy, Debug, PartialEq, Eq, Structural)]
#[non_exhaustive]
pub enum LitExprKind {
    Int(IntLitExpr),
    Float(FloatLitExpr),
    Str(StrLitExpr),
    Char(CharLitExpr),
    Bool(BoolLitExpr),
    UnaryOp(UnaryOpExpr),
}

/// Methods that all concrete expressions share.
pub trait ExprData: Sized {
    spec fn spec_data(&self) -> CommonExprData;

    spec fn spec_precedence(&self) -> ExprPrecedence;

    spec fn spec_as_expr(&self) -> ExprKind;

    /// Narrows a tagged expression back to this concrete type.
    spec fn spec_narrow(kind: ExprKind) -> Option<Self>;

    fn id(&self) -> (r: ExprId)
        ensures
            r == self.spec_data().spec_id(),
    ;

    fn span(&self) -> (r: SpanId)
        ensures
            r == self.spec_data().spec_span(),
    ;

    fn precedence(&self) -> (r: ExprPrecedence)
        ensures
            r == self.spec_precedence(),
    ;

    /// Wraps this expression in its [`ExprKind`] variant.
    fn as_expr(&self) -> (r: ExprKind)
        ensures
            r == self.spec_as_expr(),
    ;

    /// Returns the concrete expression if `kind` is of this type.
    fn narrow(kind: ExprKind) -> (r: Option<Self>)
        ensures
            r == Self::spec_narrow(kind),
    ;

    /// Narrowing the wrapped expression gives the expression back.
    proof fn lemma_narrow_as_expr(&self)
        ensures
            Self::spec_narrow(self.spec_as_expr()) == Some(*self),
            self.spec_as_expr().spec_data() == self.spec_data(),
            self.spec_as_expr().spec_precedence() == self.spec_precedence(),
    ;
}

impl IntLitExpr {
    pub closed spec fn spec_value(self) -> u128 {
        self.value
    }

    pub fn new(data: CommonExprData, value: u128) -> (r: Self)
        ensures
            r.spec_data() == data,
            r.spec_value() == value,
    {
        IntLitExpr { data, value }
    }

    pub fn value(&self) -> (r: u128)
        ensures
            r == self.spec_value(),
    {
        self.value
    }
}

impl ExprData for IntLitExpr {
    closed spec fn spec_data(&self) -> CommonExprData {
        self.data
    }

    open spec fn spec_precedence(&self) -> ExprPrecedence {
        ExprPrecedence::Lit
    }

    open spec fn spec_as_expr(&self) -> ExprKind {
        ExprKind::IntLit(*self)
    }

    open spec fn spec_narrow(kind: ExprKind) -> Option<Self> {
        match kind {
            ExprKind::IntLit(e) => Some(e),
            _ => None,
        }
    }

    fn id(&self) -> (r: ExprId) {
        self.data.id()
    }

    fn span(&self) -> (r: SpanId) {
        self.data.span()
    }

    fn precedence(&self) -> (r: ExprPrecedence) {
        ExprPrecedence::Lit
    }

    fn as_expr(&self) -> (r: ExprKind) {
        ExprKind::IntLit(*self)
    }

    proof fn lemma_narrow_as_expr(&self) {
    }

    fn narrow(kind: ExprKind) -> (r: Option<Self>) {
        match kind {
            ExprKind::IntLit(e) => Some(e),
            _ => None,
        }
    }
}

impl FloatLitExpr {
    pub closed spec fn spec_text(self) -> SymbolId {
        self.text
    }

    pub fn new(data: CommonExprData, text: SymbolId) -> (r: Self)
        ensures
            r.spec_data() == data,
            r.spec_text() == text,
    {
        FloatLitExpr { data, text }
    }

    /// The literal's text, as written.
    pub fn text(&self) -> (r: SymbolId)
        ensures
            r == self.spec_text(),
    {
        self.text
    }
}

impl ExprData for FloatLitExpr {
    closed spec fn spec_data(&self) -> CommonExprData {
        self.data
    }

    closed spec fn spec_precedence(&self) -> ExprPrecedence {
        ExprPrecedence::Lit
    }

    open spec fn spec_as_expr(&self) -> ExprKind {
        ExprKind::FloatLit(*self)
    }

    open spec fn spec_narrow(kind: ExprKind) -> Option<Self> {
        match kind {
            ExprKind::FloatLit(e) => Some(e),
            _ => None,
        }
    }

    fn id(&self) -> (r: ExprId) {
        self.data.id()
    }

    fn span(&self) -> (r: SpanId) {
        self.data.span()
    }

    fn precedence(&self) -> (r: ExprPrecedence) {
        ExprPrecedence::Lit
    }

    fn as_expr(&self) -> (r: ExprKind) {
        ExprKind::FloatLit(*self)
    }

    proof fn lemma_narrow_as_expr(&self) {
    }

    fn narrow(kind: ExprKind) -> (r: Option<Self>) {
        match kind {
            ExprKind::FloatLit(e) => Some(e),
            _ => None,
        }
    }
}

impl StrLitExpr {
    pub closed spec fn spec_text(self) -> SymbolId {
        self.text
    }

    pub fn new(data: CommonExprData, text: SymbolId) -> (r: Self)
        ensures
            r.spec_data() == data,
            r.spec_text() == text,
    {
        StrLitExpr { data, text }
    }

    /// The string's content.
    pub fn text(&self) -> (r: SymbolId)
        ensures
            r == self.spec_text(),
    {
        self.text
    }
}

impl ExprData for StrLitExpr {
    closed spec fn spec_data(&self) -> CommonExprData {
        self.data
    }

    closed spec fn spec_precedence(&self) -> ExprPrecedence {
        ExprPrecedence::Lit
    }

    open spec fn spec_as_expr(&self) -> ExprKind {
        ExprKind::StrLit(*self)
    }

    open spec fn spec_narrow(kind: ExprKind) -> Option<Self> {
        match kind {
            ExprKind::StrLit(e) => Some(e),
            _ => None,
        }
    }

    fn id(&self) -> (r: ExprId) {
        self.data.id()
    }

    fn span(&self) -> (r: SpanId) {
        self.data.span()
    }

    fn precedence(&self) -> (r: ExprPrecedence) {
        ExprPrecedence::Lit
    }

    fn as_expr(&self) -> (r: ExprKind) {
        ExprKind::StrLit(*self)
    }

    proof fn lemma_narrow_as_expr(&self) {
    }

    fn narrow(kind: ExprKind) -> (r: Option<Self>) {
        match kind {
            ExprKind::StrLit(e) => Some(e),
            _ => None,
        }
    }
}

impl CharLitExpr {
    pub closed spec fn spec_value(self) -> char {
        self.value
    }

    pub fn new(data: CommonExprData, value: char) -> (r: Self)
        ensures
            r.spec_data() == data,
            r.spec_value() == value,
    {
        CharLitExpr { data, value }
    }

    /// The character.
    pub fn value(&self) -> (r: char)
        ensures
            r == self.spec_value(),
    {
        self.value
    }
}

impl ExprData for CharLitExpr {
    closed spec fn spec_data(&self) -> CommonExprData {
        self.data
    }

    closed spec fn spec_precedence(&self) -> ExprPrecedence {
        ExprPrecedence::Lit
    }

    open spec fn spec_as_expr(&self) -> ExprKind {
        ExprKind::CharLit(*self)
    }

    open spec fn spec_narrow(kind: ExprKind) -> Option<Self> {
        match kind {
            ExprKind::CharLit(e) => Some(e),
            _ => None,
        }
    }

    fn id(&self) -> (r: ExprId) {
        self.data.id()
    }

    fn span(&self) -> (r: SpanId) {
        self.data.span()
    }

    fn precedence(&self) -> (r: ExprPrecedence) {
        ExprPrecedence::Lit
    }

    fn as_expr(&self) -> (r: ExprKind) {
        ExprKind::CharLit(*self)
    }

    proof fn lemma_narrow_as_expr(&self) {
    }

    fn narrow(kind: ExprKind) -> (r: Option<Self>) {
        match kind {
            ExprKind::CharLit(e) => Some(e),
            _ => None,
        }
    }
}

impl BoolLitExpr {
    pub closed spec fn spec_value(self) -> bool {
        self.value
    }

    pub fn new(data: CommonExprData, value: bool) -> (r: Self)
        ensures
            r.spec_data() == data,
            r.spec_value() == value,
    {
        BoolLitExpr { data, value }
    }

    /// The boolean value.
    pub fn value(&self) -> (r: bool)
        ensures
            r == self.spec_value(),
    {
        self.value
    }
}

impl ExprData for BoolLitExpr {
    closed spec fn spec_data(&self) -> CommonExprData {
        self.data
    }

    closed spec fn spec_precedence(&self) -> ExprPrecedence {
        ExprPrecedence::Lit
    }

    open spec fn spec_as_expr(&self) -> ExprKind {
        ExprKind::BoolLit(*self)
    }

    open spec fn spec_narrow(kind: ExprKind) -> Option<Self> {
        match kind {
            ExprKind::BoolLit(e) => Some(e),
            _ => None,
        }
    }

    fn id(&self) -> (r: ExprId) {
        self.data.id()
    }

    fn span(&self) -> (r: SpanId) {
        self.data.span()
    }

    fn precedence(&self) -> (r: ExprPrecedence) {
        ExprPrecedence::Lit
    }

    fn as_expr(&self) -> (r: ExprKind) {
        ExprKind::BoolLit(*self)
    }

    proof fn lemma_narrow_as_expr(&self) {
    }

    fn narrow(kind: ExprKind) -> (r: Option<Self>) {
        match kind {
            ExprKind::BoolLit(e) => Some(e),
            _ => None,
        }
    }
}

impl PathExpr {
    pub closed spec fn spec_name(self) -> SymbolId {
        self.name
    }

    pub fn new(data: CommonExprData, name: SymbolId) -> (r: Self)
        ensures
            r.spec_data() == data,
            r.spec_name() == name,
    {
        PathExpr { data, name }
    }

    /// The name that the path refers to.
    pub fn name(&self) -> (r: SymbolId)
        ensures
            r == self.spec_name(),
    {
        self.name
    }
}

impl ExprData for PathExpr {
    closed spec fn spec_data(&self) -> CommonExprData {
        self.data
    }

    closed spec fn spec_precedence(&self) -> ExprPrecedence {
        ExprPrecedence::Path
    }

    open spec fn spec_as_expr(&self) -> ExprKind {
        ExprKind::Path(*self)
    }

    open spec fn spec_narrow(kind: ExprKind) -> Option<Self> {
        match kind {
            ExprKind::Path(e) => Some(e),
            _ => None,
        }
    }

    fn id(&self) -> (r: ExprId) {
        self.data.id()
    }

    fn span(&self) -> (r: SpanId) {
        self.data.span()
    }

    fn precedence(&self) -> (r: ExprPrecedence) {
        ExprPrecedence::Path
    }

    fn as_expr(&self) -> (r: ExprKind) {
        ExprKind::Path(*self)
    }

    proof fn lemma_narrow_as_expr(&self) {
    }

    fn narrow(kind: ExprKind) -> (r: Option<Self>) {
        match kind {
            ExprKind::Path(e) => Some(e),
            _ => None,
        }
    }
}

impl UnaryOpExpr {
    pub closed spec fn spec_kind(self) -> UnaryOpKind {
        self.kind
    }

    pub closed spec fn spec_operand(self) -> ExprId {
        self.operand
    }

    pub fn new(data: CommonExprData, kind: UnaryOpKind, operand: ExprId) -> (r: Self)
        ensures
            r.spec_data() == data,
            r.spec_kind() == kind,
            r.spec_operand() == operand,
    {
        UnaryOpExpr { data, kind, operand }
    }

    /// The operator.
    pub fn kind(&self) -> (r: UnaryOpKind)
        ensures
            r == self.spec_kind(),
    {
        self.kind
    }

    /// The id of the operand, resolved through the session.
    pub fn operand(&self) -> (r: ExprId)
        ensures
            r == self.spec_operand(),
    {
        self.operand
    }
}

/// The precedence of a unary operator.
pub open spec fn unary_precedence(kind: UnaryOpKind) -> ExprPrecedence {
    match kind {
        UnaryOpKind::Neg => ExprPrecedence::Neg,
        UnaryOpKind::Not => ExprPrecedence::Not,
        UnaryOpKind::Deref => ExprPrecedence::Deref,
    }
}

impl ExprData for UnaryOpExpr {
    closed spec fn spec_data(&self) -> CommonExprData {
        self.data
    }

    closed spec fn spec_precedence(&self) -> ExprPrecedence {
        unary_precedence(self.kind)
    }

    open spec fn spec_as_expr(&self) -> ExprKind {
        ExprKind::UnaryOp(*self)
    }

    open spec fn spec_narrow(kind: ExprKind) -> Option<Self> {
        match kind {
            ExprKind::UnaryOp(e) => Some(e),
            _ => None,
        }
    }

    fn id(&self) -> (r: ExprId) {
        self.data.id()
    }

    fn span(&self) -> (r: SpanId) {
        self.data.span()
    }

    fn precedence(&self) -> (r: ExprPrecedence) {
        match self.kind {
            UnaryOpKind::Neg => ExprPrecedence::Neg,
            UnaryOpKind::Not => ExprPrecedence::Not,
            UnaryOpKind::Deref => ExprPrecedence::Deref,
        }
    }

    fn as_expr(&self) -> (r: ExprKind) {
        ExprKind::UnaryOp(*self)
    }

    proof fn lemma_narrow_as_expr(&self) {
    }

    fn narrow(kind: ExprKind) -> (r: Option<Self>) {
        match kind {
            ExprKind::UnaryOp(e) => Some(e),
            _ => None,
        }
    }
}

impl UnstableExpr {
    pub fn new(data: CommonExprData, precedence: ExprPrecedence) -> (r: Self)
        ensures
            r.spec_data() == data,
            r.spec_precedence() == precedence,
    {
        UnstableExpr { data, precedence }
    }
}

impl ExprData for UnstableExpr {
    closed spec fn spec_data(&self) -> CommonExprData {
        self.data
    }

    closed spec fn spec_precedence(&self) -> ExprPrecedence {
        self.precedence
    }

    open spec fn spec_as_expr(&self) -> ExprKind {
        ExprKind::Unstable(*self)
    }

    open spec fn spec_narrow(kind: ExprKind) -> Option<Self> {
        match kind {
            ExprKind::Unstable(e) => Some(e),
            _ => None,
        }
    }

    fn id(&self) -> (r: ExprId) {
        self.data.id()
    }

    fn span(&self) -> (r: SpanId) {
        self.data.span()
    }

    fn precedence(&self) -> (r: ExprPrecedence) {
        self.precedence
    }

    fn as_expr(&self) -> (r: ExprKind) {
        ExprKind::Unstable(*self)
    }

    proof fn lemma_narrow_as_expr(&self) {
    }

    fn narrow(kind: ExprKind) -> (r: Option<Self>) {
        match kind {
            ExprKind::Unstable(e) => Some(e),
            _ => None,
        }
    }
}

impl ExprKind {
    /// The common data of the wrapped node.
    pub closed spec fn spec_data(self) -> CommonExprData {
        match self {
            ExprKind::IntLit(e) => e.data,
            ExprKind::FloatLit(e) => e.data,
            ExprKind::StrLit(e) => e.data,
            ExprKind::CharLit(e) => e.data,
            ExprKind::BoolLit(e) => e.data,
            ExprKind::UnaryOp(e) => e.data,
            ExprKind::Path(e) => e.data,
            ExprKind::Unstable(e) => e.data,
        }
    }

    pub closed spec fn spec_precedence(self) -> ExprPrecedence {
        match self {
            ExprKind::IntLit(e) => ExprPrecedence::Lit,
            ExprKind::FloatLit(e) => ExprPrecedence::Lit,
            ExprKind::StrLit(e) => ExprPrecedence::Lit,
            ExprKind::CharLit(e) => ExprPrecedence::Lit,
            ExprKind::BoolLit(e) => ExprPrecedence::Lit,
            ExprKind::UnaryOp(e) => unary_precedence(e.kind),
            ExprKind::Path(e) => ExprPrecedence::Path,
            ExprKind::Unstable(e) => e.precedence,
        }
    }

    pub fn id(&self) -> (r: ExprId)
        ensures
            r == self.spec_data().spec_id(),
    {
        match self {
            ExprKind::IntLit(e) => e.id(),
            ExprKind::FloatLit(e) => e.id(),
            ExprKind::StrLit(e) => e.id(),
            ExprKind::CharLit(e) => e.id(),
            ExprKind::BoolLit(e) => e.id(),
            ExprKind::UnaryOp(e) => e.id(),
            ExprKind::Path(e) => e.id(),
            ExprKind::Unstable(e) => e.id(),
        }
    }

    /// The id of the span; its text is looked up in the session.
    pub fn span(&self) -> (r: SpanId)
        ensures
            r == self.spec_data().spec_span(),
    {
        match self {
            ExprKind::IntLit(e) => e.span(),
            ExprKind::FloatLit(e) => e.span(),
            ExprKind::StrLit(e) => e.span(),
            ExprKind::CharLit(e) => e.span(),
            ExprKind::BoolLit(e) => e.span(),
            ExprKind::UnaryOp(e) => e.span(),
            ExprKind::Path(e) => e.span(),
            ExprKind::Unstable(e) => e.span(),
        }
    }

    pub fn precedence(&self) -> (r: ExprPrecedence)
        ensures
            r == self.spec_precedence(),
    {
        match self {
            ExprKind::IntLit(e) => e.precedence(),
            ExprKind::FloatLit(e) => e.precedence(),
            ExprKind::StrLit(e) => e.precedence(),
            ExprKind::CharLit(e) => e.precedence(),
            ExprKind::BoolLit(e) => e.precedence(),
            ExprKind::UnaryOp(e) => e.precedence(),
            ExprKind::Path(e) => e.precedence(),
            ExprKind::Unstable(e) => e.precedence(),
        }
    }
}

impl LitExprKind {
    /// The expression that this literal is, as an [`ExprKind`].
    pub open spec fn spec_expr_kind(self) -> ExprKind {
        match self {
            LitExprKind::Int(e) => ExprKind::IntLit(e),
            LitExprKind::Float(e) => ExprKind::FloatLit(e),
            LitExprKind::Str(e) => ExprKind::StrLit(e),
            LitExprKind::Char(e) => ExprKind::CharLit(e),
            LitExprKind::Bool(e) => ExprKind::BoolLit(e),
            LitExprKind::UnaryOp(e) => ExprKind::UnaryOp(e),
        }
    }

    /// Widens this literal to the [`ExprKind`] variant of the same node.
    pub fn to_expr_kind(&self) -> (r: ExprKind)
        ensures
            r == self.spec_expr_kind(),
    {
        match self {
            LitExprKind::Int(e) => ExprKind::IntLit(*e),
            LitExprKind::Float(e) => ExprKind::FloatLit(*e),
            LitExprKind::Str(e) => ExprKind::StrLit(*e),
            LitExprKind::Char(e) => ExprKind::CharLit(*e),
            LitExprKind::Bool(e) => ExprKind::BoolLit(*e),
            LitExprKind::UnaryOp(e) => ExprKind::UnaryOp(*e),
        }
    }

    pub fn id(&self) -> (r: ExprId)
        ensures
            r == self.spec_expr_kind().spec_data().spec_id(),
    {
        self.to_expr_kind().id()
    }

    pub fn span(&self) -> (r: SpanId)
        ensures
            r == self.spec_expr_kind().spec_data().spec_span(),
    {
        self.to_expr_kind().span()
    }

    pub fn precedence(&self) -> (r: ExprPrecedence)
        ensures
            r == self.spec_expr_kind().spec_precedence(),
    {
        self.to_expr_kind().precedence()
    }
}

/// An expression that is evaluated at compile time, as in array lengths and
/// constant generic arguments.
#[derive(Clone, Copy, Debug, PartialEq, Eq, Structural)]
pub struct ConstExpr {
    expr: ExprKind,
}

impl ConstExpr {
    pub closed spec fn spec_expr(self) -> ExprKind {
        self.expr
    }

    pub fn new(expr: ExprKind) -> (r: Self)
        ensures
            r.spec_expr() == expr,
    {
        ConstExpr { expr }
    }

    /// The wrapped expression.
    pub fn expr(&self) -> (r: ExprKind)
        ensures
            r == self.spec_expr(),
    {
        self.expr
    }
}

/// For every concrete expression type, wrapping a node in its [`ExprKind`]
/// variant and narrowing back yields the same node.
pub proof fn lemma_expr_round_trip<T: ExprData>(node: T)
    ensures
        T::spec_narrow(node.spec_as_expr()) == Some(node),
        node.spec_as_expr().spec_data() == node.spec_data(),
        node.spec_as_expr().spec_precedence() == node.spec_precedence(),
{
    node.lemma_narrow_as_expr();
}

/// Whether `e` negates the literal `operand`.
pub open spec fn spec_negates_literal(e: UnaryOpExpr, operand: Option<LitExprKind>) -> bool {
    e.spec_kind() == UnaryOpKind::Neg && match operand {
        Some(o) => o.spec_expr_kind().spec_data().spec_id() == e.spec_operand(),
        None => false,
    }
}

impl LitExprKind {
    /// Narrows an expression to a literal. A unary expression is a literal if
    /// it negates one: `operand` is its operand, already narrowed, and must be
    /// the expression that the negation refers to.
    pub open spec fn spec_try_from_expr(value: ExprKind, operand: Option<LitExprKind>) -> Option<LitExprKind> {
        match value {
            ExprKind::IntLit(e) => Some(LitExprKind::Int(e)),
            ExprKind::FloatLit(e) => Some(LitExprKind::Float(e)),
            ExprKind::StrLit(e) => Some(LitExprKind::Str(e)),
            ExprKind::CharLit(e) => Some(LitExprKind::Char(e)),
            ExprKind::BoolLit(e) => Some(LitExprKind::Bool(e)),
            ExprKind::UnaryOp(e) => if spec_negates_literal(e, operand) {
                Some(LitExprKind::UnaryOp(e))
            } else {
                None
            },
            _ => None,
        }
    }

    pub fn try_from_expr(value: ExprKind, operand: Option<LitExprKind>) -> (r: Option<LitExprKind>)
        ensures
            r == Self::spec_try_from_expr(value, operand),
    {
        match value {
            ExprKind::IntLit(e) => Some(LitExprKind::Int(e)),
            ExprKind::FloatLit(e) => Some(LitExprKind::Float(e)),
            ExprKind::StrLit(e) => Some(LitExprKind::Str(e)),
            ExprKind::CharLit(e) => Some(LitExprKind::Char(e)),
            ExprKind::BoolLit(e) => Some(LitExprKind::Bool(e)),
            ExprKind::UnaryOp(e) => {
                let negates_literal = match operand {
                    Some(o) => o.id() == e.operand(),
                    None => false,
                };
                if e.kind() == UnaryOpKind::Neg && negates_literal {
                    Some(LitExprKind::UnaryOp(e))
                } else {
                    None
                }
            },
            _ => None,
        }
    }
}

/// Widening a literal to an expression and narrowing it back gives the same
/// literal; a negation does so given the literal that it negates.
pub proof fn lemma_lit_round_trip(lit: LitExprKind, operand: Option<LitExprKind>)
    requires
        lit matches LitExprKind::UnaryOp(e) ==> spec_negates_literal(e, operand),
    ensures
        LitExprKind::spec_try_from_expr(lit.spec_expr_kind(), operand) == Some(lit),
{
}

/// An expression that owns the expression below it, if any.
#[derive(Debug)]
pub struct Expr {
    pub id: u32,
    pub child: Option<Box<Expr>>,
}

impl Expr {
    /// An expression with no child.
    pub fn new(id: u32) -> (r: Self)
        ensures
            r.id == id,
            r.child is None,
    {
        Expr { id, child: None }
    }
}

} // verus!
