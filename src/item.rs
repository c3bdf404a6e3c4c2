//! Item nodes of the stable tree.
use vstd::prelude::*;
use crate::generics::TyParamBound;
use crate::ids::{BodyId, FieldId, ItemId, PatId, SpanId, SymbolId, TyId, VariantId};

verus! {

/// Who can see an item.
#[derive(Clone, Copy, Debug, PartialEq, Eq, Structural)]
#[non_exhaustive]
pub enum VisibilityKind {
    /// `pub`
    Public,
    /// Visible within the module given by its id, as with `pub(crate)`,
    /// `pub(super)` or `pub(in path)`.
    Restricted(ItemId),
    /// Visible within its own module only, as without a `pub`.
    Private,
    /// Public by default, as the items of a trait are.
    DefaultPub,
}

/// The visibility of an item: its kind and, where one is written, its span.
#[derive(Clone, Copy, Debug, PartialEq, Eq, Structural)]
pub struct Visibility {
    pub span: Option<SpanId>,
    pub kind: VisibilityKind,
}

/// The data that every item carries: its id, its span, its name and its visibility.
#[derive(Clone, Copy, Debug, PartialEq, Eq, Structural)]
pub struct CommonItemData {
    id: ItemId,
    span: SpanId,
    ident: SymbolId,
    vis: Visibility,
}

impl CommonItemData {
    pub closed spec fn spec_id(self) -> ItemId {
        self.id
    }

    pub closed spec fn spec_span(self) -> SpanId {
        self.span
    }

    pub closed spec fn spec_ident(self) -> SymbolId {
        self.ident
    }

    pub closed spec fn spec_vis(self) -> Visibility {
        self.vis
    }

    pub closed spec fn spec_new(id: ItemId, span: SpanId, ident: SymbolId, vis: Visibility) -> Self {
        CommonItemData { id, span, ident, vis }
    }

    pub proof fn lemma_spec_new(id: ItemId, span: SpanId, ident: SymbolId, vis: Visibility)
        ensures
            Self::spec_new(id, span, ident, vis).spec_id() == id,
            Self::spec_new(id, span, ident, vis).spec_span() == span,
            Self::spec_new(id, span, ident, vis).spec_ident() == ident,
            Self::spec_new(id, span, ident, vis).spec_vis() == vis,
    {
    }

    pub fn new(id: ItemId, span: SpanId, ident: SymbolId, vis: Visibility) -> (r: Self)
        ensures
            r == Self::spec_new(id, span, ident, vis),
            r.spec_id() == id,
            r.spec_span() == span,
            r.spec_ident() == ident,
            r.spec_vis() == vis,
    {
        CommonItemData { id, span, ident, vis }
    }

    pub fn id(&self) -> (r: ItemId)
        ensures
            r == self.spec_id(),
    {
        self.id
    }

    pub fn span(&self) -> (r: SpanId)
        ensures
            r == self.spec_span(),
    {
        self.span
    }

    /// The name under which the item is declared.
    pub fn ident(&self) -> (r: SymbolId)
        ensures
            r == self.spec_ident(),
    {
        self.ident
    }

    pub fn vis(&self) -> (r: Visibility)
        ensures
            r == self.spec_vis(),
    {
        self.vis
    }
}

/// Whether a `use` item imports one name or all names of a path.
#[derive(Clone, Copy, Debug, PartialEq, Eq, Structural)]
pub enum UseKind {
    /// `use a::b;`
    Single,
    /// `use a::*;`
    Glob,
}

/// An `extern crate` item. Its name is the alias, if one is declared with `as`;
/// the crate name is always the original one.
#[derive(Clone, Copy, Debug, PartialEq, Eq, Structural)]
pub struct ExternCrateItem {
    data: CommonItemData,
    crate_name: SymbolId,
}

impl ExternCrateItem {
    pub closed spec fn spec_data(self) -> CommonItemData {
        self.data
    }

    pub closed spec fn spec_new(data: CommonItemData, crate_name: SymbolId) -> Self {
        ExternCrateItem { data, crate_name }
    }

    pub proof fn lemma_spec_new(data: CommonItemData, crate_name: SymbolId)
        ensures
            Self::spec_new(data, crate_name).spec_data() == data,
            Self::spec_new(data, crate_name).spec_crate_name() == crate_name,
    {
    }

    pub fn new(data: CommonItemData, crate_name: SymbolId) -> (r: Self)
        ensures
            r == Self::spec_new(data, crate_name),
            r.spec_data() == data,
            r.spec_crate_name() == crate_name,
    {
        ExternCrateItem { data, crate_name }
    }

    /// The data that all items share.
    pub fn data(&self) -> (r: CommonItemData)
        ensures
            r == self.spec_data(),
    {
        self.data
    }

    pub closed spec fn spec_crate_name(self) -> SymbolId {
        self.crate_name
    }

    /// The original name of the crate, which differs from the item's name
    /// only where an alias was declared with `as`.
    pub fn get_crate_name(&self) -> (r: SymbolId)
        ensures
            r == self.spec_crate_name(),
    {
        self.crate_name
    }
}
/// A `use` declaration.
#[derive(Clone, Copy, Debug, PartialEq, Eq, Structural)]
pub struct UseItem {
    data: CommonItemData,
    kind: UseKind,
}

impl UseItem {
    pub closed spec fn spec_data(self) -> CommonItemData {
        self.data
    }

    pub closed spec fn spec_new(data: CommonItemData, kind: UseKind) -> Self {
        UseItem { data, kind }
    }

    pub proof fn lemma_spec_new(data: CommonItemData, kind: UseKind)
        ensures
            Self::spec_new(data, kind).spec_data() == data,
            Self::spec_new(data, kind).spec_kind() == kind,
    {
    }

    pub fn new(data: CommonItemData, kind: UseKind) -> (r: Self)
        ensures
            r == Self::spec_new(data, kind),
            r.spec_data() == data,
            r.spec_kind() == kind,
    {
        UseItem { data, kind }
    }

    /// The data that all items share.
    pub fn data(&self) -> (r: CommonItemData)
        ensures
            r == self.spec_data(),
    {
        self.data
    }

    pub closed spec fn spec_kind(self) -> UseKind {
        self.kind
    }

    /// Whether one name or all names of the path are imported.
    pub fn kind(&self) -> (r: UseKind)
        ensures
            r == self.spec_kind(),
    {
        self.kind
    }
}
/// A `static` item.
#[derive(Clone, Copy, Debug, PartialEq, Eq, Structural)]
pub struct StaticItem {
    data: CommonItemData,
    mutable: bool,
    body: Option<BodyId>,
}

impl StaticItem {
    pub closed spec fn spec_data(self) -> CommonItemData {
        self.data
    }

    pub closed spec fn spec_new(data: CommonItemData, mutable: bool, body: Option<BodyId>) -> Self {
        StaticItem { data, mutable, body }
    }

    pub proof fn lemma_spec_new(data: CommonItemData, mutable: bool, body: Option<BodyId>)
        ensures
            Self::spec_new(data, mutable, body).spec_data() == data,
            Self::spec_new(data, mutable, body).spec_mutable() == mutable,
            Self::spec_new(data, mutable, body).spec_body() == body,
    {
    }

    pub fn new(data: CommonItemData, mutable: bool, body: Option<BodyId>) -> (r: Self)
        ensures
            r == Self::spec_new(data, mutable, body),
            r.spec_data() == data,
            r.spec_mutable() == mutable,
            r.spec_body() == body,
    {
        StaticItem { data, mutable, body }
    }

    /// The data that all items share.
    pub fn data(&self) -> (r: CommonItemData)
        ensures
            r == self.spec_data(),
    {
        self.data
    }

    pub closed spec fn spec_mutable(self) -> bool {
        self.mutable
    }

    /// Whether the static is declared `mut`.
    pub fn mutable(&self) -> (r: bool)
        ensures
            r == self.spec_mutable(),
    {
        self.mutable
    }

    pub closed spec fn spec_body(self) -> Option<BodyId> {
        self.body
    }

    /// The body of the initializer; foreign statics have none.
    pub fn body(&self) -> (r: Option<BodyId>)
        ensures
            r == self.spec_body(),
    {
        self.body
    }
}
/// A `const` item.
#[derive(Clone, Copy, Debug, PartialEq, Eq, Structural)]
pub struct ConstItem {
    data: CommonItemData,
    body: Option<BodyId>,
}

impl ConstItem {
    pub closed spec fn spec_data(self) -> CommonItemData {
        self.data
    }

    pub closed spec fn spec_new(data: CommonItemData, body: Option<BodyId>) -> Self {
        ConstItem { data, body }
    }

    pub proof fn lemma_spec_new(data: CommonItemData, body: Option<BodyId>)
        ensures
            Self::spec_new(data, body).spec_data() == data,
            Self::spec_new(data, body).spec_body() == body,
    {
    }

    pub fn new(data: CommonItemData, body: Option<BodyId>) -> (r: Self)
        ensures
            r == Self::spec_new(data, body),
            r.spec_data() == data,
            r.spec_body() == body,
    {
        ConstItem { data, body }
    }

    /// The data that all items share.
    pub fn data(&self) -> (r: CommonItemData)
        ensures
            r == self.spec_data(),
    {
        self.data
    }

    pub closed spec fn spec_body(self) -> Option<BodyId> {
        self.body
    }

    /// The body of the value, if one is given.
    pub fn body(&self) -> (r: Option<BodyId>)
        ensures
            r == self.spec_body(),
    {
        self.body
    }
}
/// A parameter of a function: its span, its pattern and its type.
#[derive(Clone, Copy, Debug, PartialEq, Eq, Structural)]
pub struct FnParam {
    pub span: SpanId,
    pub pat: PatId,
    pub ty: TyId,
}

/// The calling convention of a function.
#[derive(Clone, Copy, Debug, PartialEq, Eq, Structural)]
#[non_exhaustive]
pub enum Abi {
    /// The default convention, `extern "Rust"`.
    Default,
    /// `extern "C"`
    C,
    /// Any other convention.
    Other,
}

/// A function.
#[derive(Clone, Copy, Debug, PartialEq, Eq, Structural)]
pub struct FnItem {
    data: CommonItemData,
    is_const: bool,
    is_async: bool,
    is_unsafe: bool,
    is_extern: bool,
    has_self: bool,
    abi: Abi,
    return_ty: Option<TyId>,
    body: Option<BodyId>,
}

impl FnItem {
    pub closed spec fn spec_data(self) -> CommonItemData {
        self.data
    }

    pub closed spec fn spec_new(data: CommonItemData, is_const: bool, is_async: bool, is_unsafe: bool, is_extern: bool, has_self: bool, abi: Abi, return_ty: Option<TyId>, body: Option<BodyId>) -> Self {
        FnItem { data, is_const, is_async, is_unsafe, is_extern, has_self, abi, return_ty, body }
    }

    pub proof fn lemma_spec_new(data: CommonItemData, is_const: bool, is_async: bool, is_unsafe: bool, is_extern: bool, has_self: bool, abi: Abi, return_ty: Option<TyId>, body: Option<BodyId>)
        ensures
            Self::spec_new(data, is_const, is_async, is_unsafe, is_extern, has_self, abi, return_ty, body).spec_data() == data,
            Self::spec_new(data, is_const, is_async, is_unsafe, is_extern, has_self, abi, return_ty, body).spec_is_const() == is_const,
            Self::spec_new(data, is_const, is_async, is_unsafe, is_extern, has_self, abi, return_ty, body).spec_is_async() == is_async,
            Self::spec_new(data, is_const, is_async, is_unsafe, is_extern, has_self, abi, return_ty, body).spec_is_unsafe() == is_unsafe,
            Self::spec_new(data, is_const, is_async, is_unsafe, is_extern, has_self, abi, return_ty, body).spec_is_extern() == is_extern,
            Self::spec_new(data, is_const, is_async, is_unsafe, is_extern, has_self, abi, return_ty, body).spec_has_self() == has_self,
            Self::spec_new(data, is_const, is_async, is_unsafe, is_extern, has_self, abi, return_ty, body).spec_abi() == abi,
            Self::spec_new(data, is_const, is_async, is_unsafe, is_extern, has_self, abi, return_ty, body).spec_return_ty() == return_ty,
            Self::spec_new(data, is_const, is_async, is_unsafe, is_extern, has_self, abi, return_ty, body).spec_body() == body,
    {
    }

    pub fn new(data: CommonItemData, is_const: bool, is_async: bool, is_unsafe: bool, is_extern: bool, has_self: bool, abi: Abi, return_ty: Option<TyId>, body: Option<BodyId>) -> (r: Self)
        ensures
            r == Self::spec_new(data, is_const, is_async, is_unsafe, is_extern, has_self, abi, return_ty, body),
            r.spec_data() == data,
            r.spec_is_const() == is_const,
            r.spec_is_async() == is_async,
            r.spec_is_unsafe() == is_unsafe,
            r.spec_is_extern() == is_extern,
            r.spec_has_self() == has_self,
            r.spec_abi() == abi,
            r.spec_return_ty() == return_ty,
            r.spec_body() == body,
    {
        FnItem { data, is_const, is_async, is_unsafe, is_extern, has_self, abi, return_ty, body }
    }

    /// The data that all items share.
    pub fn data(&self) -> (r: CommonItemData)
        ensures
            r == self.spec_data(),
    {
        self.data
    }

    pub closed spec fn spec_is_const(self) -> bool {
        self.is_const
    }

    /// Whether the function is `const`.
    pub fn is_const(&self) -> (r: bool)
        ensures
            r == self.spec_is_const(),
    {
        self.is_const
    }

    pub closed spec fn spec_is_async(self) -> bool {
        self.is_async
    }

    /// Whether the function is `async`.
    pub fn is_async(&self) -> (r: bool)
        ensures
            r == self.spec_is_async(),
    {
        self.is_async
    }

    pub closed spec fn spec_is_unsafe(self) -> bool {
        self.is_unsafe
    }

    /// Whether the function is `unsafe`.
    pub fn is_unsafe(&self) -> (r: bool)
        ensures
            r == self.spec_is_unsafe(),
    {
        self.is_unsafe
    }

    pub closed spec fn spec_is_extern(self) -> bool {
        self.is_extern
    }

    /// Whether the function is declared in an `extern` block.
    pub fn is_extern(&self) -> (r: bool)
        ensures
            r == self.spec_is_extern(),
    {
        self.is_extern
    }

    pub closed spec fn spec_has_self(self) -> bool {
        self.has_self
    }

    /// Whether the function takes `self`.
    pub fn has_self(&self) -> (r: bool)
        ensures
            r == self.spec_has_self(),
    {
        self.has_self
    }

    pub closed spec fn spec_abi(self) -> Abi {
        self.abi
    }

    /// The calling convention.
    pub fn abi(&self) -> (r: Abi)
        ensures
            r == self.spec_abi(),
    {
        self.abi
    }

    pub closed spec fn spec_return_ty(self) -> Option<TyId> {
        self.return_ty
    }

    /// The declared return type; for an `async` function, the type that its future yields.
    pub fn return_ty(&self) -> (r: Option<TyId>)
        ensures
            r == self.spec_return_ty(),
    {
        self.return_ty
    }

    pub closed spec fn spec_body(self) -> Option<BodyId> {
        self.body
    }

    /// The body, if the function has one.
    pub fn body(&self) -> (r: Option<BodyId>)
        ensures
            r == self.spec_body(),
    {
        self.body
    }
}

/// An item that the model cannot represent yet, with the name of the
/// language feature that it comes from.
#[derive(Clone, Copy, Debug, PartialEq, Eq, Structural)]
pub struct UnstableItem {
    data: CommonItemData,
    feature: Option<SymbolId>,
}

impl UnstableItem {
    pub closed spec fn spec_data(self) -> CommonItemData {
        self.data
    }

    pub closed spec fn spec_new(data: CommonItemData, feature: Option<SymbolId>) -> Self {
        UnstableItem { data, feature }
    }

    pub proof fn lemma_spec_new(data: CommonItemData, feature: Option<SymbolId>)
        ensures
            Self::spec_new(data, feature).spec_data() == data,
            Self::spec_new(data, feature).spec_feature() == feature,
    {
    }

    pub fn new(data: CommonItemData, feature: Option<SymbolId>) -> (r: Self)
        ensures
            r == Self::spec_new(data, feature),
            r.spec_data() == data,
            r.spec_feature() == feature,
    {
        UnstableItem { data, feature }
    }

    /// The data that all items share.
    pub fn data(&self) -> (r: CommonItemData)
        ensures
            r == self.spec_data(),
    {
        self.data
    }

    pub closed spec fn spec_feature(self) -> Option<SymbolId> {
        self.feature
    }

    /// The name of the unstable feature, if known.
    pub fn feature(&self) -> (r: Option<SymbolId>)
        ensures
            r == self.spec_feature(),
    {
        self.feature
    }
}
/// A module, whose items are addressed by id.
#[derive(Clone, Debug)]
pub struct ModItem {
    data: CommonItemData,
    items: Vec<ItemId>,
}

impl ModItem {
    pub closed spec fn spec_data(self) -> CommonItemData {
        self.data
    }

    pub closed spec fn spec_new(data: CommonItemData, items: Vec<ItemId>) -> Self {
        ModItem { data, items }
    }

    pub proof fn lemma_spec_new(data: CommonItemData, items: Vec<ItemId>)
        ensures
            Self::spec_new(data, items).spec_data() == data,
            Self::spec_new(data, items).spec_items() == items@,
    {
    }

    pub fn new(data: CommonItemData, items: Vec<ItemId>) -> (r: Self)
        ensures
            r == Self::spec_new(data, items),
            r.spec_data() == data,
            r.spec_items() == items@,
    {
        ModItem { data, items }
    }

    /// The data that all items share.
    pub fn data(&self) -> (r: CommonItemData)
        ensures
            r == self.spec_data(),
    {
        self.data
    }

    pub closed spec fn spec_items(self) -> Seq<ItemId> {
        self.items@
    }

    /// The ids of the module's items, in declaration order.
    pub fn items(&self) -> (r: &Vec<ItemId>)
        ensures
            r@ == self.spec_items(),
    {
        &self.items
    }
}

/// A field of a struct, union or enum variant.
#[derive(Clone, Copy, Debug, PartialEq, Eq, Structural)]
pub struct ItemField {
    id: FieldId,
    name: SymbolId,
    ty: TyId,
    span: SpanId,
}

impl ItemField {
    pub closed spec fn spec_new(id: FieldId, name: SymbolId, ty: TyId, span: SpanId) -> Self {
        ItemField { id, name, ty, span }
    }

    pub closed spec fn spec_id(self) -> FieldId {
        self.id
    }

    pub proof fn lemma_spec_new(id: FieldId, name: SymbolId, ty: TyId, span: SpanId)
        ensures
            Self::spec_new(id, name, ty, span).spec_id() == id,
            Self::spec_new(id, name, ty, span).spec_name() == name,
            Self::spec_new(id, name, ty, span).spec_ty() == ty,
            Self::spec_new(id, name, ty, span).spec_span() == span,
    {
    }

    pub fn new(id: FieldId, name: SymbolId, ty: TyId, span: SpanId) -> (r: Self)
        ensures
            r == Self::spec_new(id, name, ty, span),
            r.spec_id() == id,
    {
        ItemField { id, name, ty, span }
    }

    pub fn id(&self) -> (r: FieldId)
        ensures
            r == self.spec_id(),
    {
        self.id
    }

    pub closed spec fn spec_name(self) -> SymbolId {
        self.name
    }

    pub closed spec fn spec_ty(self) -> TyId {
        self.ty
    }

    pub closed spec fn spec_span(self) -> SpanId {
        self.span
    }

    /// The field's name; tuple fields are named by their position.
    pub fn name(&self) -> (r: SymbolId)
        ensures
            r == self.spec_name(),
    {
        self.name
    }

    /// The field's type, by its id.
    pub fn ty(&self) -> (r: TyId)
        ensures
            r == self.spec_ty(),
    {
        self.ty
    }

    pub fn span(&self) -> (r: SpanId)
        ensures
            r == self.spec_span(),
    {
        self.span
    }
}

/// The shape of a struct or an enum variant.
#[derive(Clone, Copy, Debug, PartialEq, Eq, Structural)]
pub enum AdtShape {
    Unit,
    Tuple,
    Field,
}

/// The fields of a struct or an enum variant, addressed by id.
#[derive(Clone, Debug)]
pub enum AdtKind {
    Unit,
    Tuple(Vec<FieldId>),
    Field(Vec<FieldId>),
}

impl AdtKind {
    pub open spec fn spec_shape(self) -> AdtShape {
        match self {
            AdtKind::Unit => AdtShape::Unit,
            AdtKind::Tuple(_) => AdtShape::Tuple,
            AdtKind::Field(_) => AdtShape::Field,
        }
    }

    pub open spec fn spec_fields(self) -> Seq<FieldId> {
        match self {
            AdtKind::Unit => Seq::empty(),
            AdtKind::Tuple(f) => f@,
            AdtKind::Field(f) => f@,
        }
    }
}

/// A variant of an enum.
#[derive(Clone, Debug)]
pub struct EnumVariant {
    id: VariantId,
    name: SymbolId,
    span: SpanId,
    kind: AdtKind,
}

/// An enum variant as a value: its id, name, span, shape and the ids of its fields.
pub struct VariantView {
    pub id: VariantId,
    pub name: SymbolId,
    pub span: SpanId,
    pub shape: AdtShape,
    pub fields: Seq<FieldId>,
}

impl EnumVariant {
    pub closed spec fn view(self) -> VariantView {
        VariantView {
            id: self.id,
            name: self.name,
            span: self.span,
            shape: self.kind.spec_shape(),
            fields: self.kind.spec_fields(),
        }
    }

    pub fn new(id: VariantId, name: SymbolId, span: SpanId, kind: AdtKind) -> (r: Self)
        ensures
            r.view() == (VariantView {
                id,
                name,
                span,
                shape: kind.spec_shape(),
                fields: kind.spec_fields(),
            }),
    {
        EnumVariant { id, name, span, kind }
    }

    pub fn id(&self) -> (r: VariantId)
        ensures
            r == self.view().id,
    {
        self.id
    }

    pub fn name(&self) -> (r: SymbolId)
        ensures
            r == self.view().name,
    {
        self.name
    }

    pub fn span(&self) -> (r: SpanId)
        ensures
            r == self.view().span,
    {
        self.span
    }

    /// The variant's fields.
    pub fn kind(&self) -> (r: &AdtKind)
        ensures
            r.spec_shape() == self.view().shape,
            r.spec_fields() == self.view().fields,
    {
        &self.kind
    }
}

/// A struct.
#[derive(Clone, Debug)]
pub struct StructItem {
    data: CommonItemData,
    kind: AdtKind,
}

impl StructItem {
    pub closed spec fn spec_data(self) -> CommonItemData {
        self.data
    }

    pub closed spec fn spec_shape(self) -> AdtShape {
        self.kind.spec_shape()
    }

    pub closed spec fn spec_fields(self) -> Seq<FieldId> {
        self.kind.spec_fields()
    }

    pub fn new(data: CommonItemData, kind: AdtKind) -> (r: Self)
        ensures
            r.spec_data() == data,
            r.spec_shape() == kind.spec_shape(),
            r.spec_fields() == kind.spec_fields(),
    {
        StructItem { data, kind }
    }

    pub fn data(&self) -> (r: CommonItemData)
        ensures
            r == self.spec_data(),
    {
        self.data
    }

    /// The struct's fields.
    pub fn kind(&self) -> (r: &AdtKind)
        ensures
            r.spec_shape() == self.spec_shape(),
            r.spec_fields() == self.spec_fields(),
    {
        &self.kind
    }
}

/// An enum, whose variants are addressed by id.
#[derive(Clone, Debug)]
pub struct EnumItem {
    data: CommonItemData,
    variants: Vec<VariantId>,
}

impl EnumItem {
    pub closed spec fn spec_data(self) -> CommonItemData {
        self.data
    }

    pub closed spec fn spec_variants(self) -> Seq<VariantId> {
        self.variants@
    }

    pub fn new(data: CommonItemData, variants: Vec<VariantId>) -> (r: Self)
        ensures
            r.spec_data() == data,
            r.spec_variants() == variants@,
    {
        EnumItem { data, variants }
    }

    pub fn data(&self) -> (r: CommonItemData)
        ensures
            r == self.spec_data(),
    {
        self.data
    }

    /// The ids of the enum's variants, in declaration order.
    pub fn variants(&self) -> (r: &Vec<VariantId>)
        ensures
            r@ == self.spec_variants(),
    {
        &self.variants
    }
}

/// The tagged union over all items.
#[derive(Debug)]
#[non_exhaustive]
pub enum ItemKind {
    Mod(ModItem),
    ExternCrate(ExternCrateItem),
    Use(UseItem),
    Static(StaticItem),
    Const(ConstItem),
    Fn(FnItem),
    Struct(StructItem),
    Enum(EnumItem),
    TyAlias(TyAliasItem),
    ExternBlock(ExternBlockItem),
    Union(UnionItem),
    Trait(TraitItem),
    Impl(ImplItem),
    Unstable(UnstableItem),
}

impl ItemKind {
    /// The common data of the wrapped node.
    pub open spec fn spec_data(self) -> CommonItemData {
        match self {
            ItemKind::Mod(i) => i.spec_data(),
            ItemKind::ExternCrate(i) => i.spec_data(),
            ItemKind::Use(i) => i.spec_data(),
            ItemKind::Static(i) => i.spec_data(),
            ItemKind::Const(i) => i.spec_data(),
            ItemKind::Fn(i) => i.spec_data(),
            ItemKind::Struct(i) => i.spec_data(),
            ItemKind::Enum(i) => i.spec_data(),
            ItemKind::TyAlias(i) => i.spec_data(),
            ItemKind::ExternBlock(i) => i.spec_data(),
            ItemKind::Union(i) => i.spec_data(),
            ItemKind::Trait(i) => i.spec_data(),
            ItemKind::Impl(i) => i.spec_data(),
            ItemKind::Unstable(i) => i.spec_data(),
        }
    }

    pub open spec fn spec_id(self) -> ItemId {
        self.spec_data().spec_id()
    }

    pub fn data(&self) -> (r: CommonItemData)
        ensures
            r == self.spec_data(),
    {
        match self {
            ItemKind::Mod(i) => i.data(),
            ItemKind::ExternCrate(i) => i.data(),
            ItemKind::Use(i) => i.data(),
            ItemKind::Static(i) => i.data(),
            ItemKind::Const(i) => i.data(),
            ItemKind::Fn(i) => i.data(),
            ItemKind::Struct(i) => i.data(),
            ItemKind::Enum(i) => i.data(),
            ItemKind::TyAlias(i) => i.data(),
            ItemKind::ExternBlock(i) => i.data(),
            ItemKind::Union(i) => i.data(),
            ItemKind::Trait(i) => i.data(),
            ItemKind::Impl(i) => i.data(),
            ItemKind::Unstable(i) => i.data(),
        }
    }

    pub fn id(&self) -> (r: ItemId)
        ensures
            r == self.spec_id(),
    {
        self.data().id()
    }

    /// The id of the span; its text is looked up in the session.
    pub fn span(&self) -> (r: SpanId)
        ensures
            r == self.spec_data().spec_span(),
    {
        self.data().span()
    }
}

/// An item inside a trait or an impl block: a reference to the item's node
/// in the session.
#[derive(Clone, Copy, Debug)]
#[non_exhaustive]
pub enum AssocItemKind<'a> {
    TyAlias(&'a TyAliasItem),
    Const(&'a ConstItem),
    Fn(&'a FnItem),
}

/// An item inside an `extern` block: a reference to the item's node in the
/// session. A foreign type, which the model cannot represent yet, is unstable.
#[derive(Clone, Copy, Debug)]
#[non_exhaustive]
pub enum ExternItemKind<'a> {
    Static(&'a StaticItem),
    Fn(&'a FnItem),
    Unstable(&'a UnstableItem),
}

/// Whether `r` is the associated item that `item` is: the same node for a type
/// alias, a constant or a function, and `None` for any other kind.
pub open spec fn assoc_of(r: Option<AssocItemKind>, item: ItemKind) -> bool {
    match item {
        ItemKind::TyAlias(t) => r matches Some(AssocItemKind::TyAlias(x)) && *x == t,
        ItemKind::Const(c) => r matches Some(AssocItemKind::Const(x)) && *x == c,
        ItemKind::Fn(f) => r matches Some(AssocItemKind::Fn(x)) && *x == f,
        _ => r is None,
    }
}

/// Whether `r` is the foreign item that `item` is: the same node for a static,
/// a function or an unstable item, and `None` for any other kind.
pub open spec fn extern_of(r: Option<ExternItemKind>, item: ItemKind) -> bool {
    match item {
        ItemKind::Static(s) => r matches Some(ExternItemKind::Static(x)) && *x == s,
        ItemKind::Fn(f) => r matches Some(ExternItemKind::Fn(x)) && *x == f,
        ItemKind::Unstable(u) => r matches Some(ExternItemKind::Unstable(x)) && *x == u,
        _ => r is None,
    }
}

impl<'a> AssocItemKind<'a> {
    /// The associated item that `item` is, if it is of a kind that can be one.
    pub fn from_item(item: &'a ItemKind) -> (r: Option<AssocItemKind<'a>>)
        ensures
            assoc_of(r, *item),
    {
        match item {
            ItemKind::TyAlias(i) => Some(AssocItemKind::TyAlias(i)),
            ItemKind::Const(i) => Some(AssocItemKind::Const(i)),
            ItemKind::Fn(i) => Some(AssocItemKind::Fn(i)),
            _ => None,
        }
    }

    pub open spec fn spec_data(self) -> CommonItemData {
        match self {
            AssocItemKind::TyAlias(i) => i.spec_data(),
            AssocItemKind::Const(i) => i.spec_data(),
            AssocItemKind::Fn(i) => i.spec_data(),
        }
    }

    /// The id of the item.
    pub fn id(&self) -> (r: ItemId)
        ensures
            r == self.spec_data().spec_id(),
    {
        match self {
            AssocItemKind::TyAlias(i) => i.data().id(),
            AssocItemKind::Const(i) => i.data().id(),
            AssocItemKind::Fn(i) => i.data().id(),
        }
    }
}

impl<'a> ExternItemKind<'a> {
    /// The foreign item that `item` is, if it is of a kind that can be one.
    pub fn from_item(item: &'a ItemKind) -> (r: Option<ExternItemKind<'a>>)
        ensures
            extern_of(r, *item),
    {
        match item {
            ItemKind::Static(i) => Some(ExternItemKind::Static(i)),
            ItemKind::Fn(i) => Some(ExternItemKind::Fn(i)),
            ItemKind::Unstable(i) => Some(ExternItemKind::Unstable(i)),
            _ => None,
        }
    }

    pub open spec fn spec_data(self) -> CommonItemData {
        match self {
            ExternItemKind::Static(i) => i.spec_data(),
            ExternItemKind::Fn(i) => i.spec_data(),
            ExternItemKind::Unstable(i) => i.spec_data(),
        }
    }

    /// The id of the item.
    pub fn id(&self) -> (r: ItemId)
        ensures
            r == self.spec_data().spec_id(),
    {
        match self {
            ExternItemKind::Static(i) => i.data().id(),
            ExternItemKind::Fn(i) => i.data().id(),
            ExternItemKind::Unstable(i) => i.data().id(),
        }
    }
}

/// A union, whose fields are addressed by id.
#[derive(Debug)]
pub struct UnionItem {
    data: CommonItemData,
    fields: Vec<FieldId>,
}

impl UnionItem {
    pub closed spec fn spec_data(self) -> CommonItemData {
        self.data
    }

    pub closed spec fn spec_fields(self) -> Seq<FieldId> {
        self.fields@
    }

    pub fn new(data: CommonItemData, fields: Vec<FieldId>) -> (r: Self)
        ensures
            r.spec_data() == data,
            r.spec_fields() == fields@,
    {
        UnionItem { data, fields }
    }

    pub fn data(&self) -> (r: CommonItemData)
        ensures
            r == self.spec_data(),
    {
        self.data
    }

    /// The ids of the union's fields, in order.
    pub fn fields(&self) -> (r: &Vec<FieldId>)
        ensures
            r@ == self.spec_fields(),
    {
        &self.fields
    }
}

/// A trait, whose items are addressed by id.
#[derive(Debug)]
pub struct TraitItem {
    data: CommonItemData,
    is_unsafe: bool,
    supertraits: Vec<TyParamBound>,
    items: Vec<ItemId>,
}

impl TraitItem {
    pub closed spec fn spec_data(self) -> CommonItemData {
        self.data
    }

    pub closed spec fn spec_is_unsafe(self) -> bool {
        self.is_unsafe
    }

    pub closed spec fn spec_supertraits(self) -> Seq<TyParamBound> {
        self.supertraits@
    }

    pub closed spec fn spec_items(self) -> Seq<ItemId> {
        self.items@
    }

    pub fn new(data: CommonItemData, is_unsafe: bool, supertraits: Vec<TyParamBound>, items: Vec<ItemId>) -> (r: Self)
        ensures
            r.spec_data() == data,
            r.spec_is_unsafe() == is_unsafe,
            r.spec_supertraits() == supertraits@,
            r.spec_items() == items@,
    {
        TraitItem { data, is_unsafe, supertraits, items }
    }

    pub fn data(&self) -> (r: CommonItemData)
        ensures
            r == self.spec_data(),
    {
        self.data
    }

    /// Whether the trait is `unsafe`.
    pub fn is_unsafe(&self) -> (r: bool)
        ensures
            r == self.spec_is_unsafe(),
    {
        self.is_unsafe
    }

    /// The bounds on `Self`: the supertraits and lifetimes.
    pub fn supertraits(&self) -> (r: &Vec<TyParamBound>)
        ensures
            r@ == self.spec_supertraits(),
    {
        &self.supertraits
    }

    /// The ids of the trait's items, in declaration order.
    pub fn items(&self) -> (r: &Vec<ItemId>)
        ensures
            r@ == self.spec_items(),
    {
        &self.items
    }
}

/// An impl block, whose items are addressed by id.
#[derive(Debug)]
pub struct ImplItem {
    data: CommonItemData,
    is_unsafe: bool,
    is_positive: bool,
    trait_id: Option<ItemId>,
    self_ty: TyId,
    items: Vec<ItemId>,
}

impl ImplItem {
    pub closed spec fn spec_data(self) -> CommonItemData {
        self.data
    }

    pub closed spec fn spec_is_unsafe(self) -> bool {
        self.is_unsafe
    }

    pub closed spec fn spec_is_positive(self) -> bool {
        self.is_positive
    }

    pub closed spec fn spec_trait_id(self) -> Option<ItemId> {
        self.trait_id
    }

    pub closed spec fn spec_self_ty(self) -> TyId {
        self.self_ty
    }

    pub closed spec fn spec_items(self) -> Seq<ItemId> {
        self.items@
    }

    pub fn new(data: CommonItemData, is_unsafe: bool, is_positive: bool, trait_id: Option<ItemId>, self_ty: TyId, items: Vec<ItemId>) -> (r: Self)
        ensures
            r.spec_data() == data,
            r.spec_is_unsafe() == is_unsafe,
            r.spec_is_positive() == is_positive,
            r.spec_trait_id() == trait_id,
            r.spec_self_ty() == self_ty,
            r.spec_items() == items@,
    {
        ImplItem { data, is_unsafe, is_positive, trait_id, self_ty, items }
    }

    pub fn data(&self) -> (r: CommonItemData)
        ensures
            r == self.spec_data(),
    {
        self.data
    }

    /// Whether the impl is `unsafe`.
    pub fn is_unsafe(&self) -> (r: bool)
        ensures
            r == self.spec_is_unsafe(),
    {
        self.is_unsafe
    }

    /// Whether the impl is positive, not `impl !Trait`.
    pub fn is_positive(&self) -> (r: bool)
        ensures
            r == self.spec_is_positive(),
    {
        self.is_positive
    }

    /// The implemented trait, for a trait impl.
    pub fn trait_id(&self) -> (r: Option<ItemId>)
        ensures
            r == self.spec_trait_id(),
    {
        self.trait_id
    }

    /// The type that the impl is for, by its id.
    pub fn self_ty(&self) -> (r: TyId)
        ensures
            r == self.spec_self_ty(),
    {
        self.self_ty
    }

    /// The ids of the impl's items, in declaration order.
    pub fn items(&self) -> (r: &Vec<ItemId>)
        ensures
            r@ == self.spec_items(),
    {
        &self.items
    }
}

/// A type alias: `type X<..>: bounds = ty;`. A free alias and an alias in an
/// impl block have no bounds and a type; one in a trait may have bounds and no type.
#[derive(Debug)]
pub struct TyAliasItem {
    data: CommonItemData,
    bounds: Vec<TyParamBound>,
    ty: Option<TyId>,
}

impl TyAliasItem {
    pub closed spec fn spec_data(self) -> CommonItemData {
        self.data
    }

    pub closed spec fn spec_bounds(self) -> Seq<TyParamBound> {
        self.bounds@
    }

    pub closed spec fn spec_ty(self) -> Option<TyId> {
        self.ty
    }

    pub fn new(data: CommonItemData, bounds: Vec<TyParamBound>, ty: Option<TyId>) -> (r: Self)
        ensures
            r.spec_data() == data,
            r.spec_bounds() == bounds@,
            r.spec_ty() == ty,
    {
        TyAliasItem { data, bounds, ty }
    }

    pub fn data(&self) -> (r: CommonItemData)
        ensures
            r == self.spec_data(),
    {
        self.data
    }

    /// The bounds on the aliased type.
    pub fn bounds(&self) -> (r: &Vec<TyParamBound>)
        ensures
            r@ == self.spec_bounds(),
    {
        &self.bounds
    }

    /// The aliased type, by its id, if one is given.
    pub fn ty(&self) -> (r: Option<TyId>)
        ensures
            r == self.spec_ty(),
    {
        self.ty
    }
}

/// An `extern` block, whose items are addressed by id.
#[derive(Debug)]
pub struct ExternBlockItem {
    data: CommonItemData,
    abi: Abi,
    items: Vec<ItemId>,
}

impl ExternBlockItem {
    pub closed spec fn spec_data(self) -> CommonItemData {
        self.data
    }

    pub closed spec fn spec_abi(self) -> Abi {
        self.abi
    }

    pub closed spec fn spec_items(self) -> Seq<ItemId> {
        self.items@
    }

    pub fn new(data: CommonItemData, abi: Abi, items: Vec<ItemId>) -> (r: Self)
        ensures
            r.spec_data() == data,
            r.spec_abi() == abi,
            r.spec_items() == items@,
    {
        ExternBlockItem { data, abi, items }
    }

    pub fn data(&self) -> (r: CommonItemData)
        ensures
            r == self.spec_data(),
    {
        self.data
    }

    /// The calling convention of the block's items.
    pub fn abi(&self) -> (r: Abi)
        ensures
            r == self.spec_abi(),
    {
        self.abi
    }

    /// The ids of the block's items, in declaration order.
    pub fn items(&self) -> (r: &Vec<ItemId>)
        ensures
            r@ == self.spec_items(),
    {
        &self.items
    }
}

} // verus!
