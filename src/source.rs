//! The compiler's own tree, as the conversion layer reads it.
//!
//! These types hold, as plain values, what conversion needs from a compiler
//! node: its stable handle, its span and expansion context, and its kind. The
//! driver fills them from the compiler's tree; the compiler's types never
//! reach the stable tree.
use vstd::prelude::*;
use crate::expr::UnaryOpKind;
use crate::ids::SymbolId;
use crate::item::VisibilityKind;

verus! {

/// The kind of expansion that produced a span outside the root context.
#[derive(Clone, Copy, Debug, PartialEq, Eq, Structural)]
pub enum ExpnKind {
    /// A macro invocation or attribute macro.
    Macro,
    /// A pass of the compiler over the syntax tree, such as the one that
    /// inserts the standard library's prelude.
    AstPass,
    /// Desugaring of a language construct.
    Desugaring,
}

/// A span of the compiler's tree.
#[derive(Clone, Copy, Debug, PartialEq, Eq, Structural)]
pub struct SourceSpan {
    /// The compiler's handle for the span; the stable tree's span id is taken from it.
    pub handle: u64,
    /// The outermost expansion that produced the span, or `None` for code in
    /// the root context, as written by the user.
    pub expansion: Option<ExpnKind>,
}

/// How a `use` item of the compiler's tree imports.
#[derive(Clone, Copy, Debug, PartialEq, Eq, Structural)]
pub enum SourceUseKind {
    Single,
    Glob,
    /// The stem of a `use a::{b, c};` list, which the compiler adds next to
    /// the single imports that it splits the list into.
    ListStem,
}

/// The visibility of an item of the compiler's tree: the span of the written
/// visibility, or `None` where nothing is written, and who can see the item.
#[derive(Clone, Copy, Debug, PartialEq, Eq, Structural)]
pub struct SourceVisibility {
    pub span: Option<SourceSpan>,
    pub kind: VisibilityKind,
}

/// The kind of an item of the compiler's tree.
#[derive(Clone, Debug)]
pub enum SourceItemKind {
    ExternCrate { original_name: Option<SymbolId> },
    Use { kind: SourceUseKind },
    /// A static, with the handle of its initializer's body; foreign statics have none.
    Static { mutable: bool, body: Option<u64> },
    /// A constant, with the handle of its value's body; constants in traits may have none.
    Const { body: Option<u64> },
    /// A function, with its parameters and the handle of its body if it has one.
    Fn { sig: SourceFnSig, params: Vec<SourceParam>, body: Option<u64> },
    /// A module and the handles of its items.
    Mod { items: Vec<u64> },
    Struct { data: SourceVariantData },
    /// A type alias, with its bounds and the handle of the aliased type, if
    /// given; the bounds and the missing type occur in traits only.
    TyAlias { bounds: Vec<SourceGenericBound>, ty: Option<u64> },
    Union { fields: Vec<SourceField> },
    /// A trait: whether it is `unsafe`, its supertrait bounds and the handles of its items.
    Trait { is_unsafe: bool, bounds: Vec<SourceGenericBound>, items: Vec<u64> },
    /// An impl block: whether it is `unsafe` and positive, the handle of the
    /// implemented trait for a trait impl, the handle of the self type, and
    /// the handles of its items.
    Impl { is_unsafe: bool, is_positive: bool, trait_def: Option<u64>, self_ty: u64, items: Vec<u64> },
    /// An `extern` block: its calling convention and the handles of its items.
    ForeignMod { abi: SourceAbi, items: Vec<u64> },
    Enum { variants: Vec<SourceVariant> },
    /// A `macro_rules!` definition.
    Macro,
    GlobalAsm,
    /// A construct that the stable tree cannot represent yet, with the name of
    /// the language feature it belongs to, if there is one.
    Unstable { feature: Option<SymbolId> },
}

/// An item of the compiler's tree.
#[derive(Clone, Debug)]
pub struct SourceItem {
    /// The compiler's handle for the item's owner; the item id is taken from it.
    pub owner: u64,
    pub span: SourceSpan,
    pub name: SymbolId,
    pub vis: SourceVisibility,
    pub kind: SourceItemKind,
    /// The item's generic parameters and `where` clauses; empty for items
    /// that have none.
    pub generics: SourceGenerics,
}

/// The kind of an expression of the compiler's tree.
#[derive(Clone, Copy, Debug, PartialEq, Eq, Structural)]
pub enum SourceExprKind {
    Int(u128),
    /// A float literal, by its text.
    Float(SymbolId),
    Str(SymbolId),
    Char(char),
    Bool(bool),
    /// A unary operation and the handle of its operand.
    Unary(UnaryOpKind, u64),
    Path(SymbolId),
    /// A construct that the stable tree cannot represent yet.
    Unsupported,
}

/// An expression of the compiler's tree.
#[derive(Clone, Copy, Debug, PartialEq, Eq, Structural)]
pub struct SourceExpr {
    /// The compiler's handle for the expression; the expression id is taken from it.
    pub handle: u64,
    pub span: SourceSpan,
    pub kind: SourceExprKind,
}

/// A body of the compiler's tree: the value of a function, constant or static.
#[derive(Clone, Copy, Debug, PartialEq, Eq, Structural)]
pub struct SourceBody {
    pub handle: u64,
    /// The handle of the item that owns the body.
    pub owner: u64,
    /// Whether the body is a coroutine, which may `yield`.
    pub is_coroutine: bool,
    pub value: SourceExpr,
}

/// The kind of an attribute of the compiler's tree.
#[derive(Clone, Debug)]
pub enum SourceAttrKind {
    /// `#[path]` or `#[path = value]`, with the value if it is a string.
    Normal { path: Vec<SymbolId>, value: Option<SymbolId> },
    /// A doc comment, with its text.
    DocComment(SymbolId),
}

/// An attribute of the compiler's tree.
#[derive(Clone, Debug)]
pub struct SourceAttribute {
    pub is_outer: bool,
    pub kind: SourceAttrKind,
    pub span: SourceSpan,
}

/// What a lifetime of the compiler's tree refers to.
#[derive(Clone, Copy, Debug, PartialEq, Eq, Structural)]
pub enum SourceLifetimeName {
    /// A lifetime parameter, by the handle of its declaration; anonymous ones
    /// are elided or written `'_` in a position that declares one.
    Param { anonymous: bool, param: u64 },
    /// The default lifetime of a trait object, which is never written.
    ImplicitObjectLifetimeDefault,
    Infer,
    Static,
}

/// A lifetime of the compiler's tree.
#[derive(Clone, Copy, Debug, PartialEq, Eq, Structural)]
pub struct SourceLifetime {
    pub name: SourceLifetimeName,
    pub ident: SymbolId,
    pub span: SourceSpan,
}

/// The name of a generic parameter of the compiler's tree.
#[derive(Clone, Copy, Debug, PartialEq, Eq, Structural)]
pub enum SourceParamName {
    /// A name that the user wrote.
    Plain(SymbolId),
    /// A name that the compiler made up.
    Fresh,
    Error,
}

/// The kind of a generic parameter of the compiler's tree.
#[derive(Clone, Copy, Debug, PartialEq, Eq, Structural)]
pub enum SourceGenericParamKind {
    /// A lifetime parameter; `explicit` is false for one the compiler added.
    Lifetime { explicit: bool },
    /// A type parameter; `synthetic` is true for the parameter of an
    /// `impl Trait` argument.
    Type { synthetic: bool },
    Const,
}

/// A generic parameter of the compiler's tree.
#[derive(Clone, Copy, Debug, PartialEq, Eq, Structural)]
pub struct SourceGenericParam {
    pub def_id: u64,
    pub name: SourceParamName,
    pub span: SourceSpan,
    pub kind: SourceGenericParamKind,
}

/// A bound of the compiler's tree.
#[derive(Clone, Copy, Debug, PartialEq, Eq, Structural)]
pub enum SourceGenericBound {
    /// A trait bound; `maybe` is true for `?Trait`.
    Trait { maybe: bool, trait_def: u64, span: SourceSpan },
    Outlives(SourceLifetime),
}

/// A trait reference of a trait object type, such as `Display` in `dyn Display`.
#[derive(Clone, Copy, Debug, PartialEq, Eq, Structural)]
pub struct SourcePolyTraitRef {
    pub trait_def: u64,
    pub span: SourceSpan,
}

/// A predicate of a `where` clause of the compiler's tree.
#[derive(Clone, Debug)]
pub enum SourceWherePredicate {
    /// `for<params> ty: bounds`, with the bounded type by its handle.
    Bound { params: Vec<SourceGenericParam>, bounded_ty: u64, bounds: Vec<SourceGenericBound> },
    /// `'a: 'b + 'c`
    Region { lifetime: SourceLifetime, outlives: Vec<SourceLifetime> },
}

/// The generics of an item of the compiler's tree.
#[derive(Clone, Debug)]
pub struct SourceGenerics {
    pub params: Vec<SourceGenericParam>,
    pub predicates: Vec<SourceWherePredicate>,
}

/// The kind of a generic argument of the compiler's tree.
#[derive(Clone, Copy, Debug, PartialEq, Eq, Structural)]
pub enum SourceGenericArgKind {
    Lifetime(SourceLifetime),
    /// A type, by its handle.
    Type(u64),
}

/// A generic argument of the compiler's tree.
#[derive(Clone, Copy, Debug, PartialEq, Eq, Structural)]
pub struct SourceGenericArg {
    /// Whether the compiler added the argument, as for `impl Trait` arguments.
    pub synthetic: bool,
    pub kind: SourceGenericArgKind,
}

/// An associated type binding such as `Item = u32`.
#[derive(Clone, Copy, Debug, PartialEq, Eq, Structural)]
pub struct SourceTypeBinding {
    pub span: SourceSpan,
    pub name: SymbolId,
    /// The bound type, by its handle.
    pub ty: u64,
}

/// The generic arguments of a path segment of the compiler's tree.
#[derive(Clone, Debug)]
pub struct SourceGenericArgs {
    pub args: Vec<SourceGenericArg>,
    pub bindings: Vec<SourceTypeBinding>,
}

/// A segment of a path of the compiler's tree.
#[derive(Clone, Debug)]
pub struct SourcePathSegment {
    pub name: SymbolId,
    pub args: Option<SourceGenericArgs>,
}

/// A field of the compiler's tree.
#[derive(Clone, Copy, Debug, PartialEq, Eq, Structural)]
pub struct SourceField {
    /// The compiler's handle for the field; the field id is taken from it.
    pub handle: u64,
    pub name: SymbolId,
    /// The field's type, by its handle.
    pub ty: u64,
    pub span: SourceSpan,
}

/// The shape of a struct or an enum variant of the compiler's tree.
#[derive(Clone, Debug)]
pub enum SourceVariantData {
    /// `{ a: A, b: B }`
    Struct(Vec<SourceField>),
    /// `(A, B)`
    Tuple(Vec<SourceField>),
    Unit,
}

/// An enum variant of the compiler's tree.
#[derive(Clone, Debug)]
pub struct SourceVariant {
    /// The compiler's handle for the variant; the variant id is taken from it.
    pub handle: u64,
    pub name: SymbolId,
    pub span: SourceSpan,
    pub data: SourceVariantData,
}

/// The calling convention of a function of the compiler's tree.
#[derive(Clone, Copy, Debug, PartialEq, Eq, Structural)]
pub enum SourceAbi {
    Rust,
    C,
    Other,
}

/// The declared return type of a function of the compiler's tree.
#[derive(Clone, Copy, Debug, PartialEq, Eq, Structural)]
pub struct SourceRetTy {
    /// The type as the compiler holds it, by its handle; for an `async`
    /// function, the `impl Future` that the compiler wraps the written type in.
    pub ty: u64,
    /// For an `async` function, the `Output` of that future, by its handle,
    /// where the compiler's type has the expected form.
    pub future_output: Option<u64>,
}

/// The signature of a function of the compiler's tree.
#[derive(Clone, Copy, Debug, PartialEq, Eq, Structural)]
pub struct SourceFnSig {
    pub is_const: bool,
    pub is_async: bool,
    pub is_unsafe: bool,
    /// Whether the function is declared in an `extern` block.
    pub is_foreign: bool,
    pub has_self: bool,
    pub abi: SourceAbi,
    /// The declared return type, if one is written.
    pub output: Option<SourceRetTy>,
}

/// The kind of an item of an `extern` block of the compiler's tree.
#[derive(Clone, Debug)]
pub enum SourceForeignItemKind {
    /// A function, with its parameters and its declared return type by its
    /// handle, if written.
    Fn { has_self: bool, params: Vec<SourceParam>, output: Option<u64> },
    Static { mutable: bool },
    /// A foreign type, which the stable tree cannot represent yet.
    Type,
}

/// An item of an `extern` block of the compiler's tree.
#[derive(Clone, Debug)]
pub struct SourceForeignItem {
    pub owner: u64,
    pub span: SourceSpan,
    pub name: SymbolId,
    pub vis: SourceVisibility,
    pub kind: SourceForeignItemKind,
}

/// A parameter of a function of the compiler's tree: its span (for a
/// parameter without a body, from its name to its type), its pattern and its
/// type, by their handles.
#[derive(Clone, Copy, Debug, PartialEq, Eq, Structural)]
pub struct SourceParam {
    pub span: SourceSpan,
    pub pat: u64,
    pub ty: u64,
}

/// A generic argument of a semantic type of the compiler.
#[derive(Clone, Copy, Debug, PartialEq, Eq, Structural)]
pub enum SourceSemArg {
    Lifetime,
    /// A type, by its handle.
    Type(u64),
}

/// An associated type binding of a trait object, such as `Item = u32` in
/// `dyn Iterator<Item = u32>`: the associated item and the type, by their handles.
#[derive(Clone, Copy, Debug, PartialEq, Eq, Structural)]
pub struct SourceProjection {
    pub item_def: u64,
    pub ty: u64,
}

/// The main trait of a trait object, with its arguments.
#[derive(Clone, Debug)]
pub struct SourcePrincipal {
    pub trait_def: u64,
    pub args: Vec<SourceSemArg>,
}

/// The bounds of a semantic trait object type of the compiler: at most one
/// main trait, its bindings, and auto traits.
#[derive(Clone, Debug)]
pub struct SourceExistentialBounds {
    pub principal: Option<SourcePrincipal>,
    pub projections: Vec<SourceProjection>,
    pub auto_traits: Vec<u64>,
}

} // verus!
