//! The session context: it owns the stable tree of one compilation session and
//! converts the compiler's nodes into it.
//!
//! Items and bodies can be reached on more than one path (a trait method is
//! visited through its trait and again through a reference to it), so the
//! session caches them by id: converting the same entity again returns the
//! node that is already there and allocates nothing. Everything the session
//! holds is dropped with it.
use vstd::prelude::*;
use std::collections::HashMap;
use crate::expr::{
    BoolLitExpr, CharLitExpr, CommonExprData, ExprData, ExprKind, ExprPrecedence, FloatLitExpr,
    IntLitExpr, PathExpr, StrLitExpr, UnaryOpExpr, UnstableExpr,
};
use crate::ids::{BodyId, ExprId, FieldId, ItemId, PatId, SpanId, SymbolId, TyId, VariantId};
use crate::generics::{
    filter_map_seq, generics_converted, spec_to_bound, to_generic_params, to_ty_param_bound, GenericParams,
};
use crate::item::{
    assoc_of, extern_of, ExternBlockItem, ImplItem, TraitItem, TyAliasItem, UnionItem, AdtKind, AdtShape, AssocItemKind, CommonItemData, EnumItem, EnumVariant, ExternItemKind, ItemField,
    Abi, FnParam, Visibility, StructItem, VariantView, ConstItem, ExternCrateItem, FnItem, ItemKind, ModItem, StaticItem,
    UnstableItem, UseItem, UseKind,
};
use crate::source::{
    SourceVisibility, SourceParam, SourceForeignItem, SourceForeignItemKind, SourceGenericBound, SourceAbi, SourceFnSig, ExpnKind, SourceField, SourceVariant, SourceVariantData, SourceBody, SourceExpr, SourceExprKind, SourceItem, SourceItemKind, SourceSpan,
    SourceUseKind,
};

verus! {

/// The id that an item of the compiler's tree gets.
pub open spec fn item_id_of(owner: u64) -> ItemId {
    ItemId { raw: owner }
}

/// The id that a span of the compiler's tree gets.
pub open spec fn span_id_of(span: SourceSpan) -> SpanId {
    SpanId { raw: span.handle }
}

/// Whether a span was produced by a pass of the compiler rather than written
/// by the user or expanded from a macro.
pub open spec fn spec_is_compiler_generated(span: SourceSpan) -> bool {
    span.expansion == Some(ExpnKind::AstPass)
}

/// Whether the arena holds an item with the given id.
pub open spec fn has_item(items: Seq<ItemKind>, id: ItemId) -> bool {
    exists|i: int| 0 <= i < items.len() && (#[trigger] items[i]).spec_id() == id
}

/// Whether no two items of the arena share an id.
pub open spec fn item_ids_unique(items: Seq<ItemKind>) -> bool {
    forall|i: int, j: int|
        0 <= i < j < items.len() ==> (#[trigger] items[i]).spec_id() != (#[trigger] items[j]).spec_id()
}

/// Whether an item of the compiler's tree has no node in the stable tree:
/// it was generated by the compiler, or it is a construct that the stable
/// tree leaves out (a list stem of a `use`, a macro definition, global assembly).
pub open spec fn item_dropped(src: SourceItem) -> bool {
    spec_is_compiler_generated(src.span) || match src.kind {
        SourceItemKind::Use { kind } => kind == SourceUseKind::ListStem,
        SourceItemKind::Macro => true,
        SourceItemKind::GlobalAsm => true,
        _ => false,
    }
}

/// The data that the node of an item of the compiler's tree carries.
pub open spec fn item_data_of(src: SourceItem) -> CommonItemData {
    CommonItemData::spec_new(item_id_of(src.owner), span_id_of(src.span), src.name, visibility_of(src.vis))
}

/// Whether `k` is the stable node for the item `src` of the compiler's tree.
pub open spec fn converted_item(src: SourceItem, k: ItemKind) -> bool {
    let data = item_data_of(src);
    match src.kind {
        SourceItemKind::ExternCrate { original_name } => k == ItemKind::ExternCrate(
            ExternCrateItem::spec_new(
                data,
                match original_name {
                    Some(n) => n,
                    None => src.name,
                },
            ),
        ),
        SourceItemKind::Use { kind } => k == ItemKind::Use(
            UseItem::spec_new(
                data,
                if kind == SourceUseKind::Single {
                    UseKind::Single
                } else {
                    UseKind::Glob
                },
            ),
        ),
        SourceItemKind::Static { mutable, body } => k == ItemKind::Static(
            StaticItem::spec_new(data, mutable, opt_body_id(body)),
        ),
        SourceItemKind::TyAlias { bounds, ty } => k matches ItemKind::TyAlias(t) && t.spec_data() == data
            && t.spec_bounds() == filter_map_seq(bounds@, |b: SourceGenericBound| spec_to_bound(b))
            && t.spec_ty() == opt_ty_id(ty),
        SourceItemKind::Union { fields } => k matches ItemKind::Union(u) && u.spec_data() == data
            && u.spec_fields() == field_ids(fields@),
        SourceItemKind::Trait { is_unsafe, bounds, items } => k matches ItemKind::Trait(t) && t.spec_data()
            == data && t.spec_is_unsafe() == is_unsafe && t.spec_supertraits() == filter_map_seq(
            bounds@,
            |b: SourceGenericBound| spec_to_bound(b),
        ) && t.spec_items() == items@.map_values(|o: u64| item_id_of(o)),
        SourceItemKind::Impl { is_unsafe, is_positive, trait_def, self_ty, items } => k matches ItemKind::Impl(
            t,
        ) && t.spec_data() == data && t.spec_is_unsafe() == is_unsafe && t.spec_is_positive()
            == is_positive && t.spec_trait_id() == match trait_def {
            Some(d) => Some(item_id_of(d)),
            None => None,
        } && t.spec_self_ty() == (TyId { raw: self_ty }) && t.spec_items() == items@.map_values(
            |o: u64| item_id_of(o),
        ),
        SourceItemKind::ForeignMod { abi, items } => k matches ItemKind::ExternBlock(b) && b.spec_data()
            == data && b.spec_abi() == abi_of(abi) && b.spec_items() == items@.map_values(
            |o: u64| item_id_of(o),
        ),
        SourceItemKind::Const { body } => k == ItemKind::Const(ConstItem::spec_new(data, opt_body_id(body))),
        SourceItemKind::Fn { sig, params, body } => k == ItemKind::Fn(fn_item_of(data, sig, body)),
        SourceItemKind::Mod { items } => k matches ItemKind::Mod(m) && m.spec_data() == data
            && m.spec_items() == items@.map_values(|o: u64| item_id_of(o)),
        SourceItemKind::Struct { data: d } => k matches ItemKind::Struct(i) && i.spec_data() == data
            && i.spec_shape() == shape_of(d) && i.spec_fields() == field_ids(data_fields(d)),
        SourceItemKind::Enum { variants } => k matches ItemKind::Enum(i) && i.spec_data() == data
            && i.spec_variants() == variants@.map_values(|v: SourceVariant| VariantId { raw: v.handle }),
        SourceItemKind::Unstable { feature } => k == ItemKind::Unstable(
            UnstableItem::spec_new(data, feature),
        ),
        _ => false,
    }
}

/// The field node for a field of the compiler's tree.
pub open spec fn field_of(f: SourceField) -> ItemField {
    ItemField::spec_new(FieldId { raw: f.handle }, f.name, TyId { raw: f.ty }, span_id_of(f.span))
}

/// The ids of the fields of the compiler's tree.
pub open spec fn field_ids(fs: Seq<SourceField>) -> Seq<FieldId> {
    fs.map_values(|f: SourceField| FieldId { raw: f.handle })
}

/// The fields of a struct or an enum variant of the compiler's tree.
pub open spec fn data_fields(d: SourceVariantData) -> Seq<SourceField> {
    match d {
        SourceVariantData::Struct(f) => f@,
        SourceVariantData::Tuple(f) => f@,
        SourceVariantData::Unit => Seq::empty(),
    }
}

pub open spec fn shape_of(d: SourceVariantData) -> AdtShape {
    match d {
        SourceVariantData::Struct(_) => AdtShape::Field,
        SourceVariantData::Tuple(_) => AdtShape::Tuple,
        SourceVariantData::Unit => AdtShape::Unit,
    }
}

/// The fields of all the variants, in order.
pub open spec fn variant_fields(vs: Seq<SourceVariant>) -> Seq<SourceField>
    decreases vs.len(),
{
    if vs.len() == 0 {
        Seq::empty()
    } else {
        variant_fields(vs.drop_last()) + data_fields(vs.last().data)
    }
}

/// The view of the variant node for a variant of the compiler's tree.
pub open spec fn variant_view_of(v: SourceVariant) -> VariantView {
    VariantView {
        id: VariantId { raw: v.handle },
        name: v.name,
        span: span_id_of(v.span),
        shape: shape_of(v.data),
        fields: field_ids(data_fields(v.data)),
    }
}

pub open spec fn has_field(fs: Seq<ItemField>, id: FieldId) -> bool {
    exists|i: int| 0 <= i < fs.len() && (#[trigger] fs[i]).spec_id() == id
}

pub open spec fn has_variant(vs: Seq<VariantView>, id: VariantId) -> bool {
    exists|i: int| 0 <= i < vs.len() && (#[trigger] vs[i]).id == id
}

pub open spec fn field_ids_unique(fs: Seq<ItemField>) -> bool {
    forall|i: int, j: int|
        0 <= i < j < fs.len() ==> (#[trigger] fs[i]).spec_id() != (#[trigger] fs[j]).spec_id()
}

pub open spec fn variant_ids_unique(vs: Seq<VariantView>) -> bool {
    forall|i: int, j: int| 0 <= i < j < vs.len() ==> (#[trigger] vs[i]).id != (#[trigger] vs[j]).id
}

/// The field arena after registering `srcs` in order: a field that is there
/// already is kept as it is, any other one is appended.
pub open spec fn register_fields(fs: Seq<ItemField>, srcs: Seq<SourceField>) -> Seq<ItemField>
    decreases srcs.len(),
{
    if srcs.len() == 0 {
        fs
    } else {
        let init = register_fields(fs, srcs.drop_last());
        if has_field(init, FieldId { raw: srcs.last().handle }) {
            init
        } else {
            init.push(field_of(srcs.last()))
        }
    }
}

/// The variant arena after registering `srcs` in order, as for fields.
pub open spec fn register_variants(vs: Seq<VariantView>, srcs: Seq<SourceVariant>) -> Seq<VariantView>
    decreases srcs.len(),
{
    if srcs.len() == 0 {
        vs
    } else {
        let init = register_variants(vs, srcs.drop_last());
        if has_variant(init, VariantId { raw: srcs.last().handle }) {
            init
        } else {
            init.push(variant_view_of(srcs.last()))
        }
    }
}

proof fn lemma_register_fields_append(fs: Seq<ItemField>, a: Seq<SourceField>, b: Seq<SourceField>)
    ensures
        register_fields(fs, a + b) == register_fields(register_fields(fs, a), b),
    decreases b.len(),
{
    if b.len() == 0 {
        assert(a + b =~= a);
    } else {
        assert((a + b).drop_last() =~= a + b.drop_last());
        assert((a + b).last() == b.last());
        lemma_register_fields_append(fs, a, b.drop_last());
    }
}

/// The fields that converting the item `src` registers.
pub open spec fn item_fields(src: SourceItem) -> Seq<SourceField> {
    match src.kind {
        SourceItemKind::Struct { data } => data_fields(data),
        SourceItemKind::Union { fields } => fields@,
        SourceItemKind::Enum { variants } => variant_fields(variants@),
        _ => Seq::empty(),
    }
}

/// The variants that converting the item `src` registers.
pub open spec fn item_variants(src: SourceItem) -> Seq<SourceVariant> {
    match src.kind {
        SourceItemKind::Enum { variants } => variants@,
        _ => Seq::empty(),
    }
}

/// Whether converting `src` builds a new item, rather than finding it in the
/// cache or leaving it out.
pub open spec fn converts_new(before: Seq<ItemKind>, src: SourceItem) -> bool {
    !has_item(before, item_id_of(src.owner)) && !item_dropped(src)
}

/// One conversion of the item `src`: the arena goes from `before` to `after`
/// and the result is `r`. A cached item is returned as it is; a dropped item
/// gives `None`; any other item is built, appended and returned by id.
pub open spec fn item_conversion(
    before: Seq<ItemKind>,
    src: SourceItem,
    after: Seq<ItemKind>,
    r: Option<ItemId>,
) -> bool {
    let id = item_id_of(src.owner);
    if has_item(before, id) {
        after == before && r == Some(id)
    } else if item_dropped(src) {
        after == before && r is None
    } else {
        r == Some(id) && after.len() == before.len() + 1 && after.drop_last() == before
            && converted_item(src, after.last())
    }
}

/// The calling convention in the stable tree.
pub open spec fn abi_of(abi: SourceAbi) -> Abi {
    match abi {
        SourceAbi::Rust => Abi::Default,
        SourceAbi::C => Abi::C,
        SourceAbi::Other => Abi::Other,
    }
}

/// The return type of a function: the declared one, or for an `async`
/// function the output of the future that the compiler wraps it in.
pub open spec fn spec_return_ty(sig: SourceFnSig) -> Option<TyId> {
    match sig.output {
        None => None,
        Some(o) => Some(
            TyId {
                raw: match o.future_output {
                    Some(out) => if sig.is_async {
                        out
                    } else {
                        o.ty
                    },
                    None => o.ty,
                },
            },
        ),
    }
}

/// The function node for a function of the compiler's tree.
pub open spec fn fn_item_of(data: CommonItemData, sig: SourceFnSig, body: Option<u64>) -> FnItem {
    FnItem::spec_new(
        data,
        sig.is_const,
        sig.is_async,
        sig.is_unsafe,
        sig.is_foreign,
        sig.has_self,
        abi_of(sig.abi),
        spec_return_ty(sig),
        match body {
            Some(b) => Some(BodyId { raw: b }),
            None => None,
        },
    )
}

proof fn lemma_fn_item_of(data: CommonItemData, sig: SourceFnSig, body: Option<u64>)
    ensures
        fn_item_of(data, sig, body).spec_data() == data,
{
    FnItem::lemma_spec_new(
        data,
        sig.is_const,
        sig.is_async,
        sig.is_unsafe,
        sig.is_foreign,
        sig.has_self,
        abi_of(sig.abi),
        spec_return_ty(sig),
        match body {
            Some(b) => Some(BodyId { raw: b }),
            None => None,
        },
    );
}

/// Builds the node of a function from its signature and body.
pub fn to_fn_item(data: CommonItemData, sig: &SourceFnSig, body: Option<u64>) -> (r: FnItem)
    ensures
        r == fn_item_of(data, *sig, body),
        r.spec_data() == data,
{
    proof {
        lemma_fn_item_of(data, *sig, body);
    }
    let abi = match sig.abi {
        SourceAbi::Rust => Abi::Default,
        SourceAbi::C => Abi::C,
        SourceAbi::Other => Abi::Other,
    };
    let return_ty = match sig.output {
        None => None,
        Some(o) => {
            let raw = match o.future_output {
                Some(out) => if sig.is_async {
                    out
                } else {
                    o.ty
                },
                None => o.ty,
            };
            Some(TyId { raw })
        },
    };
    let body = match body {
        Some(b) => Some(BodyId { raw: b }),
        None => None,
    };
    FnItem::new(
        data,
        sig.is_const,
        sig.is_async,
        sig.is_unsafe,
        sig.is_foreign,
        sig.has_self,
        abi,
        return_ty,
        body,
    )
}

/// The body id for an optional body handle.
pub open spec fn opt_body_id(body: Option<u64>) -> Option<BodyId> {
    match body {
        Some(b) => Some(BodyId { raw: b }),
        None => None,
    }
}

/// The type id for an optional type handle.
pub open spec fn opt_ty_id(ty: Option<u64>) -> Option<TyId> {
    match ty {
        Some(t) => Some(TyId { raw: t }),
        None => None,
    }
}

fn to_abi(abi: SourceAbi) -> (r: Abi)
    ensures
        r == abi_of(abi),
{
    match abi {
        SourceAbi::Rust => Abi::Default,
        SourceAbi::C => Abi::C,
        SourceAbi::Other => Abi::Other,
    }
}

fn item_ids_of(handles: &Vec<u64>) -> (r: Vec<ItemId>)
    ensures
        r@ == handles@.map_values(|o: u64| item_id_of(o)),
{
    let mut ids: Vec<ItemId> = Vec::new();
    let mut i: usize = 0;
    while i < handles.len()
        invariant
            0 <= i <= handles@.len(),
            ids@.len() == i,
            forall|j: int| 0 <= j < i ==> #[trigger] ids@[j] == item_id_of(handles@[j]),
        decreases handles@.len() - i,
    {
        ids.push(ItemId { raw: handles[i] });
        i += 1;
    }
    assert(ids@ =~= handles@.map_values(|o: u64| item_id_of(o)));
    ids
}

/// The node of an item of an `extern` block with the block's calling
/// convention: a function is `extern`, has no body and is neither `const`,
/// `async` nor `unsafe`; a static has no body; a foreign type is unstable.
pub open spec fn foreign_item_of(src: SourceForeignItem, abi: SourceAbi) -> ItemKind {
    let data = CommonItemData::spec_new(item_id_of(src.owner), span_id_of(src.span), src.name, visibility_of(src.vis));
    match src.kind {
        SourceForeignItemKind::Fn { has_self, params, output } => ItemKind::Fn(
            FnItem::spec_new(data, false, false, false, true, has_self, abi_of(abi), opt_ty_id(output), None),
        ),
        SourceForeignItemKind::Static { mutable } => ItemKind::Static(StaticItem::spec_new(data, mutable, None)),
        SourceForeignItemKind::Type => ItemKind::Unstable(UnstableItem::spec_new(data, None)),
    }
}

/// One conversion of the foreign item `src`: a cached item is kept as it is;
/// any other is built and appended.
pub open spec fn foreign_item_conversion(
    before: Seq<ItemKind>,
    src: SourceForeignItem,
    abi: SourceAbi,
    after: Seq<ItemKind>,
) -> bool {
    if has_item(before, item_id_of(src.owner)) {
        after == before
    } else {
        after == before.push(foreign_item_of(src, abi))
    }
}

/// The parameter node for a parameter of the compiler's tree.
pub open spec fn param_of(p: SourceParam) -> FnParam {
    FnParam { span: span_id_of(p.span), pat: PatId { raw: p.pat }, ty: TyId { raw: p.ty } }
}

/// Converts the parameters of a function, in order.
pub fn to_fn_params(params: &Vec<SourceParam>) -> (r: Vec<FnParam>)
    ensures
        r@ == params@.map_values(|p: SourceParam| param_of(p)),
{
    let mut r: Vec<FnParam> = Vec::new();
    let mut i: usize = 0;
    while i < params.len()
        invariant
            0 <= i <= params@.len(),
            r@ == params@.subrange(0, i as int).map_values(|p: SourceParam| param_of(p)),
        decreases params@.len() - i,
    {
        let p = params[i];
        r.push(FnParam { span: SpanId { raw: p.span.handle }, pat: PatId { raw: p.pat }, ty: TyId { raw: p.ty } });
        i += 1;
        assert(r@ =~= params@.subrange(0, i as int).map_values(|p: SourceParam| param_of(p)));
    }
    assert(params@.subrange(0, i as int) =~= params@);
    r
}

/// The visibility of an item: its kind, and the span where one is written.
pub open spec fn visibility_of(v: SourceVisibility) -> Visibility {
    Visibility {
        span: match v.span {
            Some(s) => Some(span_id_of(s)),
            None => None,
        },
        kind: v.kind,
    }
}

/// Converts the visibility of an item.
pub fn to_visibility(v: SourceVisibility) -> (r: Visibility)
    ensures
        r == visibility_of(v),
{
    let span = match v.span {
        Some(s) => Some(SpanId { raw: s.handle }),
        None => None,
    };
    Visibility { span, kind: v.kind }
}

/// The node converted from an item carries that item's id.
pub proof fn lemma_converted_item_id(src: SourceItem, k: ItemKind)
    requires
        converted_item(src, k),
    ensures
        k.spec_id() == item_id_of(src.owner),
{
    let data = item_data_of(src);
    CommonItemData::lemma_spec_new(item_id_of(src.owner), span_id_of(src.span), src.name, visibility_of(src.vis));
    match src.kind {
        SourceItemKind::ExternCrate { original_name } => {
            let n = match original_name {
                Some(n) => n,
                None => src.name,
            };
            ExternCrateItem::lemma_spec_new(data, n);
        },
        SourceItemKind::Use { kind } => {
            UseItem::lemma_spec_new(data, UseKind::Single);
            UseItem::lemma_spec_new(data, UseKind::Glob);
        },
        SourceItemKind::Static { mutable, body } => {
            StaticItem::lemma_spec_new(data, mutable, opt_body_id(body));
        },
        SourceItemKind::Const { body } => {
            ConstItem::lemma_spec_new(data, opt_body_id(body));
        },
        SourceItemKind::Fn { sig, params, body } => {
            lemma_fn_item_of(data, sig, body);
        },
        SourceItemKind::Unstable { feature } => {
            UnstableItem::lemma_spec_new(data, feature);
        },
        _ => {},
    }
}

/// Whether `e` is the stable node for the expression `src` of the compiler's tree.
pub open spec fn converted_expr(src: SourceExpr, e: ExprKind) -> bool {
    &&& e.spec_data() == CommonExprData::spec_new(ExprId { raw: src.handle }, span_id_of(src.span))
    &&& match src.kind {
        SourceExprKind::Int(v) => e matches ExprKind::IntLit(n) && n.spec_value() == v,
        SourceExprKind::Float(t) => e matches ExprKind::FloatLit(n) && n.spec_text() == t,
        SourceExprKind::Str(t) => e matches ExprKind::StrLit(n) && n.spec_text() == t,
        SourceExprKind::Char(c) => e matches ExprKind::CharLit(n) && n.spec_value() == c,
        SourceExprKind::Bool(b) => e matches ExprKind::BoolLit(n) && n.spec_value() == b,
        SourceExprKind::Unary(op, operand) => e matches ExprKind::UnaryOp(n) && n.spec_kind() == op
            && n.spec_operand() == (ExprId { raw: operand }),
        SourceExprKind::Path(name) => e matches ExprKind::Path(n) && n.spec_name() == name,
        SourceExprKind::Unsupported => e is Unstable && e.spec_precedence()
            == ExprPrecedence::Unstable(0),
    }
}

/// Whether a span was produced by a pass of the compiler. Such code is not
/// converted, so that no lint fires on code the user cannot see.
pub fn is_compiler_generated(span: SourceSpan) -> (r: bool)
    ensures
        r == spec_is_compiler_generated(span),
{
    match span.expansion {
        Some(ExpnKind::AstPass) => true,
        _ => false,
    }
}

/// Converts an expression of the compiler's tree. Its operand, if any, is
/// referred to by id.
pub fn to_expr(src: &SourceExpr) -> (r: ExprKind)
    ensures
        converted_expr(*src, r),
{
    let data = CommonExprData::new(ExprId { raw: src.handle }, SpanId { raw: src.span.handle });
    proof {
        CommonExprData::lemma_spec_new(ExprId { raw: src.handle }, span_id_of(src.span));
    }
    let r = match src.kind {
        SourceExprKind::Int(v) => {
            let n = IntLitExpr::new(data, v);
            proof {
                n.lemma_narrow_as_expr();
            }
            n.as_expr()
        },
        SourceExprKind::Float(t) => {
            let n = FloatLitExpr::new(data, t);
            proof {
                n.lemma_narrow_as_expr();
            }
            n.as_expr()
        },
        SourceExprKind::Str(t) => {
            let n = StrLitExpr::new(data, t);
            proof {
                n.lemma_narrow_as_expr();
            }
            n.as_expr()
        },
        SourceExprKind::Char(c) => {
            let n = CharLitExpr::new(data, c);
            proof {
                n.lemma_narrow_as_expr();
            }
            n.as_expr()
        },
        SourceExprKind::Bool(b) => {
            let n = BoolLitExpr::new(data, b);
            proof {
                n.lemma_narrow_as_expr();
            }
            n.as_expr()
        },
        SourceExprKind::Unary(op, operand) => {
            let n = UnaryOpExpr::new(
            data,
            op,
            ExprId { raw: operand },
        );
            proof {
                n.lemma_narrow_as_expr();
            }
            n.as_expr()
        },
        SourceExprKind::Path(name) => {
            let n = PathExpr::new(data, name);
            proof {
                n.lemma_narrow_as_expr();
            }
            n.as_expr()
        },
        SourceExprKind::Unsupported => {
            let n = UnstableExpr::new(data, ExprPrecedence::Unstable(0));
            proof {
                n.lemma_narrow_as_expr();
            }
            n.as_expr()
        },
    };
    r
}

/// The body of a function, constant or static: its id, its owner and the
/// expression that is its value.
#[derive(Clone, Copy, Debug, PartialEq, Eq, Structural)]
pub struct Body {
    id: BodyId,
    owner: ItemId,
    value: ExprKind,
}

impl Body {
    pub closed spec fn spec_id(self) -> BodyId {
        self.id
    }

    pub closed spec fn spec_owner(self) -> ItemId {
        self.owner
    }

    pub closed spec fn spec_value(self) -> ExprKind {
        self.value
    }

    pub fn new(id: BodyId, owner: ItemId, value: ExprKind) -> (r: Self)
        ensures
            r.spec_id() == id,
            r.spec_owner() == owner,
            r.spec_value() == value,
    {
        Body { id, owner, value }
    }

    pub fn id(&self) -> (r: BodyId)
        ensures
            r == self.spec_id(),
    {
        self.id
    }

    /// The id of the item that owns the body.
    pub fn owner(&self) -> (r: ItemId)
        ensures
            r == self.spec_owner(),
    {
        self.owner
    }

    /// The expression that the body evaluates to.
    pub fn value(&self) -> (r: ExprKind)
        ensures
            r == self.spec_value(),
    {
        self.value
    }
}

/// Whether the arena holds a body with the given id.
pub open spec fn has_body(bodies: Seq<Body>, id: BodyId) -> bool {
    exists|i: int| 0 <= i < bodies.len() && (#[trigger] bodies[i]).spec_id() == id
}

/// Whether no two bodies of the arena share an id.
pub open spec fn body_ids_unique(bodies: Seq<Body>) -> bool {
    forall|i: int, j: int|
        0 <= i < j < bodies.len() ==> (#[trigger] bodies[i]).spec_id() != (#[trigger] bodies[j]).spec_id()
}

/// Whether `b` is the stable node for the body `src` of the compiler's tree.
/// The value of a coroutine body, whose `yield` the stable tree cannot
/// represent yet, is an unstable expression.
pub open spec fn converted_body(src: SourceBody, b: Body) -> bool {
    &&& b.spec_id() == (BodyId { raw: src.handle })
    &&& b.spec_owner() == item_id_of(src.owner)
    &&& if src.is_coroutine {
        b.spec_value() is Unstable && b.spec_value().spec_data() == CommonExprData::spec_new(
            ExprId { raw: src.value.handle },
            span_id_of(src.value.span),
        ) && b.spec_value().spec_precedence() == ExprPrecedence::Unstable(0)
    } else {
        converted_expr(src.value, b.spec_value())
    }
}

/// One conversion of the body `src`: the arena goes from `before` to `after`
/// and the result is `r`. A cached body is returned as it is; any other body
/// is built and appended.
pub open spec fn body_conversion(before: Seq<Body>, src: SourceBody, after: Seq<Body>, r: Body) -> bool {
    let id = BodyId { raw: src.handle };
    if has_body(before, id) {
        after == before && r.spec_id() == id && forall|i: int|
            0 <= i < before.len() && (#[trigger] before[i]).spec_id() == id ==> before[i] == r
    } else {
        after == before.push(r) && converted_body(src, r)
    }
}

/// Where a span lies: the file, by its name's symbol, and the first and
/// one-past-last byte offsets.
#[derive(Clone, Copy, Debug, PartialEq, Eq, Structural)]
pub struct SpanInfo {
    pub file: SymbolId,
    pub lo: u32,
    pub hi: u32,
}

/// The context of one compilation session. It owns the arenas of the stable
/// tree; every node of the session is reached through it, and none outlives it.
pub struct SessionContext {
    items: Vec<ItemKind>,
    bodies: Vec<Body>,
    fields: Vec<ItemField>,
    variants: Vec<EnumVariant>,
    item_index: HashMap<u64, usize>,
    body_index: HashMap<u64, usize>,
    field_index: HashMap<u64, usize>,
    variant_index: HashMap<u64, usize>,
    spans: HashMap<u64, SpanInfo>,
    expr_types: HashMap<u64, TyId>,
    generics: HashMap<u64, GenericParams>,
    params: HashMap<u64, Vec<FnParam>>,
}

impl SessionContext {
    /// Well-formed: no two nodes of one arena share an id, and each index maps
    /// the ids of its arena to their positions.
    pub closed spec fn wf(self) -> bool {
        &&& item_ids_unique(self.items@)
        &&& body_ids_unique(self.bodies@)
        &&& field_ids_unique(self.fields@)
        &&& variant_ids_unique(self.spec_variants())
        &&& indexes(self.item_index@, self.items@.map_values(|k: ItemKind| k.spec_id().raw))
        &&& indexes(self.body_index@, self.bodies@.map_values(|b: Body| b.spec_id().raw))
        &&& indexes(self.field_index@, self.fields@.map_values(|f: ItemField| f.spec_id().raw))
        &&& indexes(self.variant_index@, self.spec_variants().map_values(|v: VariantView| v.id.raw))
    }

    /// The fields registered so far.
    pub closed spec fn spec_fields(self) -> Seq<ItemField> {
        self.fields@
    }

    /// The variants registered so far.
    pub closed spec fn spec_variants(self) -> Seq<VariantView> {
        self.variants@.map_values(|v: EnumVariant| v.view())
    }

    /// The items converted so far, in the order in which they were converted.
    pub closed spec fn spec_items(self) -> Seq<ItemKind> {
        self.items@
    }

    /// The bodies converted so far, in the order in which they were converted.
    pub closed spec fn spec_bodies(self) -> Seq<Body> {
        self.bodies@
    }

    /// A session with empty arenas.
    pub fn new() -> (r: Self)
        ensures
            r.spec_items() == Seq::<ItemKind>::empty(),
            r.spec_bodies() == Seq::<Body>::empty(),
            r.spec_fields() == Seq::<ItemField>::empty(),
            r.spec_variants() == Seq::<VariantView>::empty(),
            r.wf(),
            forall|id: ItemId| !has_item(r.spec_items(), id),
            forall|id: BodyId| !has_body(r.spec_bodies(), id),
            r.spec_spans() == Map::<u64, SpanInfo>::empty(),
            r.spec_expr_types() == Map::<u64, TyId>::empty(),
            r.spec_generics() == Map::<u64, GenericParams>::empty(),
            r.spec_params() == Map::<u64, Vec<FnParam>>::empty(),
    {
        let r = SessionContext {
            items: Vec::new(),
            bodies: Vec::new(),
            fields: Vec::new(),
            variants: Vec::new(),
            item_index: HashMap::new(),
            body_index: HashMap::new(),
            field_index: HashMap::new(),
            variant_index: HashMap::new(),
            spans: HashMap::new(),
            expr_types: HashMap::new(),
            generics: HashMap::new(),
            params: HashMap::new(),
        };
        assert(r.spec_variants() =~= Seq::<VariantView>::empty());
        r
    }

    /// The span of each span id that the driver has registered, by raw id.
    pub closed spec fn spec_spans(self) -> Map<u64, SpanInfo> {
        self.spans@
    }

    /// The type of each expression that the driver has registered, by raw id.
    pub closed spec fn spec_expr_types(self) -> Map<u64, TyId> {
        self.expr_types@
    }

    /// The generics of each converted item, by the item's raw id.
    pub closed spec fn spec_generics(self) -> Map<u64, GenericParams> {
        self.generics@
    }

    /// The generic parameters and `where` clauses of the item `id`, if it has
    /// been converted.
    pub fn generics(&self, id: ItemId) -> (r: Option<&GenericParams>)
        ensures
            match r {
                Some(g) => self.spec_generics().contains_key(id.raw) && *g == self.spec_generics()[id.raw],
                None => !self.spec_generics().contains_key(id.raw),
            },
    {
        broadcast use vstd::std_specs::hash::group_hash_axioms;
        self.generics.get(&id.raw)
    }

    /// The parameters of each converted function, by the function's raw id.
    pub closed spec fn spec_params(self) -> Map<u64, Vec<FnParam>> {
        self.params@
    }

    /// The parameters of the function `id`, if it has been converted.
    pub fn fn_params(&self, id: ItemId) -> (r: Option<&Vec<FnParam>>)
        ensures
            match r {
                Some(p) => self.spec_params().contains_key(id.raw) && *p == self.spec_params()[id.raw],
                None => !self.spec_params().contains_key(id.raw),
            },
    {
        broadcast use vstd::std_specs::hash::group_hash_axioms;
        self.params.get(&id.raw)
    }

    /// Records where the span `id` lies in the source.
    pub fn register_span(&mut self, id: SpanId, info: SpanInfo)
        ensures
            old(self).wf() ==> final(self).wf(),
            final(self).spec_spans() == old(self).spec_spans().insert(id.raw, info),
            final(self).spec_expr_types() == old(self).spec_expr_types(),
            final(self).spec_items() == old(self).spec_items(),
            final(self).spec_bodies() == old(self).spec_bodies(),
            final(self).spec_fields() == old(self).spec_fields(),
            final(self).spec_variants() == old(self).spec_variants(),
    {
        self.spans.insert(id.raw, info);
    }

    /// Records the type of the expression `id`.
    pub fn register_expr_ty(&mut self, id: ExprId, ty: TyId)
        ensures
            old(self).wf() ==> final(self).wf(),
            final(self).spec_expr_types() == old(self).spec_expr_types().insert(id.raw, ty),
            final(self).spec_spans() == old(self).spec_spans(),
            final(self).spec_items() == old(self).spec_items(),
            final(self).spec_bodies() == old(self).spec_bodies(),
            final(self).spec_fields() == old(self).spec_fields(),
            final(self).spec_variants() == old(self).spec_variants(),
    {
        self.expr_types.insert(id.raw, ty);
    }

    /// Where the span `id` lies in the source, if the driver registered it.
    pub fn span(&self, id: SpanId) -> (r: Option<SpanInfo>)
        ensures
            r == if self.spec_spans().contains_key(id.raw) {
                Some(self.spec_spans()[id.raw])
            } else {
                None
            },
    {
        broadcast use vstd::std_specs::hash::group_hash_axioms;
        match self.spans.get(&id.raw) {
            Some(info) => Some(*info),
            None => None,
        }
    }

    /// The type of the expression `id`, if the driver registered it.
    pub fn expr_ty(&self, id: ExprId) -> (r: Option<TyId>)
        ensures
            r == if self.spec_expr_types().contains_key(id.raw) {
                Some(self.spec_expr_types()[id.raw])
            } else {
                None
            },
    {
        broadcast use vstd::std_specs::hash::group_hash_axioms;
        match self.expr_types.get(&id.raw) {
            Some(ty) => Some(*ty),
            None => None,
        }
    }

    /// The number of items converted so far.
    pub fn item_count(&self) -> (r: usize)
        ensures
            r == self.spec_items().len(),
    {
        self.items.len()
    }

    /// The number of bodies converted so far.
    pub fn body_count(&self) -> (r: usize)
        ensures
            r == self.spec_bodies().len(),
    {
        self.bodies.len()
    }

    fn find_item(&self, id: ItemId) -> (r: Option<usize>)
        requires
            self.wf(),
        ensures
            match r {
                Some(i) => i < self.items@.len() && self.items@[i as int].spec_id() == id,
                None => !has_item(self.items@, id),
            },
    {
        let r = lookup(&self.item_index, id.raw);
        proof {
            let ids = self.items@.map_values(|k: ItemKind| k.spec_id().raw);
            match r {
                Some(i) => {
                    assert(ids[i as int] == id.raw);
                },
                None => {
                    if has_item(self.items@, id) {
                        let i = choose|i: int| 0 <= i < self.items@.len() && (#[trigger] self.items@[i]).spec_id() == id;
                        assert(self.item_index@.contains_key(ids[i]));
                    }
                },
            }
        }
        r
    }

    fn find_body(&self, id: BodyId) -> (r: Option<usize>)
        requires
            self.wf(),
        ensures
            match r {
                Some(i) => i < self.bodies@.len() && self.bodies@[i as int].spec_id() == id,
                None => !has_body(self.bodies@, id),
            },
    {
        let r = lookup(&self.body_index, id.raw);
        proof {
            let ids = self.bodies@.map_values(|b: Body| b.spec_id().raw);
            match r {
                Some(i) => {
                    assert(ids[i as int] == id.raw);
                },
                None => {
                    if has_body(self.bodies@, id) {
                        let i = choose|i: int| 0 <= i < self.bodies@.len() && (#[trigger] self.bodies@[i]).spec_id() == id;
                        assert(self.body_index@.contains_key(ids[i]));
                    }
                },
            }
        }
        r
    }

    /// The item with the given id, if it has been converted.
    pub fn item(&self, id: ItemId) -> (r: Option<&ItemKind>)
        requires
            self.wf(),
        ensures
            match r {
                Some(k) => k.spec_id() == id && exists|i: int|
                    0 <= i < self.spec_items().len() && self.spec_items()[i] == *k,
                None => !has_item(self.spec_items(), id),
            },
    {
        match self.find_item(id) {
            Some(i) => {
                assert(self.spec_items()[i as int] == self.items@[i as int]);
                Some(&self.items[i])
            },
            None => None,
        }
    }

    /// The body with the given id, if it has been converted.
    pub fn body(&self, id: BodyId) -> (r: Option<Body>)
        requires
            self.wf(),
        ensures
            match r {
                Some(b) => b.spec_id() == id && exists|i: int|
                    0 <= i < self.spec_bodies().len() && self.spec_bodies()[i] == b,
                None => !has_body(self.spec_bodies(), id),
            },
    {
        match self.find_body(id) {
            Some(i) => {
                assert(self.spec_bodies()[i as int] == self.bodies@[i as int]);
                Some(self.bodies[i])
            },
            None => None,
        }
    }

    fn find_field(&self, id: FieldId) -> (r: Option<usize>)
        requires
            self.wf(),
        ensures
            match r {
                Some(i) => i < self.fields@.len() && self.fields@[i as int].spec_id() == id,
                None => !has_field(self.fields@, id),
            },
    {
        let r = lookup(&self.field_index, id.raw);
        proof {
            let ids = self.fields@.map_values(|f: ItemField| f.spec_id().raw);
            match r {
                Some(i) => {
                    assert(ids[i as int] == id.raw);
                },
                None => {
                    if has_field(self.fields@, id) {
                        let i = choose|i: int| 0 <= i < self.fields@.len() && (#[trigger] self.fields@[i]).spec_id() == id;
                        assert(self.field_index@.contains_key(ids[i]));
                    }
                },
            }
        }
        r
    }

    fn find_variant(&self, id: VariantId) -> (r: Option<usize>)
        requires
            self.wf(),
        ensures
            match r {
                Some(i) => i < self.variants@.len() && self.spec_variants()[i as int].id == id,
                None => !has_variant(self.spec_variants(), id),
            },
    {
        let r = lookup(&self.variant_index, id.raw);
        proof {
            let ids = self.spec_variants().map_values(|v: VariantView| v.id.raw);
            match r {
                Some(i) => {
                    assert(ids[i as int] == id.raw);
                },
                None => {
                    if has_variant(self.spec_variants(), id) {
                        let i = choose|i: int| 0 <= i < self.spec_variants().len() && (#[trigger] self.spec_variants()[i]).id == id;
                        assert(self.variant_index@.contains_key(ids[i]));
                    }
                },
            }
        }
        r
    }

    fn push_item(&mut self, item: ItemKind)
        requires
            old(self).wf(),
            !has_item(old(self).items@, item.spec_id()),
        ensures
            final(self).wf(),
            final(self).items@ == old(self).items@.push(item),
            final(self).bodies@ == old(self).bodies@,
            final(self).fields@ == old(self).fields@,
            final(self).variants@ == old(self).variants@,
            final(self).generics@ == old(self).generics@,
            final(self).params@ == old(self).params@,
    {
        let id = item.id();
        let pos = self.items.len();
        proof {
            lemma_indexes_push(self.item_index@, self.items@.map_values(|k: ItemKind| k.spec_id().raw), id.raw, pos);
        }
        self.item_index.insert(id.raw, pos);
        self.items.push(item);
        assert(self.items@.map_values(|k: ItemKind| k.spec_id().raw) =~= old(self).items@.map_values(
            |k: ItemKind| k.spec_id().raw,
        ).push(id.raw));
    }

    fn push_body(&mut self, body: Body)
        requires
            old(self).wf(),
            !has_body(old(self).bodies@, body.spec_id()),
        ensures
            final(self).wf(),
            final(self).bodies@ == old(self).bodies@.push(body),
            final(self).items@ == old(self).items@,
            final(self).fields@ == old(self).fields@,
            final(self).variants@ == old(self).variants@,
            final(self).generics@ == old(self).generics@,
            final(self).params@ == old(self).params@,
    {
        let id = body.id();
        let pos = self.bodies.len();
        proof {
            lemma_indexes_push(self.body_index@, self.bodies@.map_values(|b: Body| b.spec_id().raw), id.raw, pos);
        }
        self.body_index.insert(id.raw, pos);
        self.bodies.push(body);
        assert(self.bodies@.map_values(|b: Body| b.spec_id().raw) =~= old(self).bodies@.map_values(
            |b: Body| b.spec_id().raw,
        ).push(id.raw));
    }

    fn push_field(&mut self, field: ItemField)
        requires
            old(self).wf(),
            !has_field(old(self).fields@, field.spec_id()),
        ensures
            final(self).wf(),
            final(self).fields@ == old(self).fields@.push(field),
            final(self).items@ == old(self).items@,
            final(self).bodies@ == old(self).bodies@,
            final(self).variants@ == old(self).variants@,
            final(self).generics@ == old(self).generics@,
            final(self).params@ == old(self).params@,
    {
        let id = field.id();
        let pos = self.fields.len();
        proof {
            lemma_indexes_push(self.field_index@, self.fields@.map_values(|f: ItemField| f.spec_id().raw), id.raw, pos);
        }
        self.field_index.insert(id.raw, pos);
        self.fields.push(field);
        assert(self.fields@.map_values(|f: ItemField| f.spec_id().raw) =~= old(self).fields@.map_values(
            |f: ItemField| f.spec_id().raw,
        ).push(id.raw));
    }

    fn push_variant(&mut self, variant: EnumVariant)
        requires
            old(self).wf(),
            !has_variant(old(self).spec_variants(), variant.view().id),
        ensures
            final(self).wf(),
            final(self).spec_variants() == old(self).spec_variants().push(variant.view()),
            final(self).items@ == old(self).items@,
            final(self).bodies@ == old(self).bodies@,
            final(self).fields@ == old(self).fields@,
            final(self).generics@ == old(self).generics@,
            final(self).params@ == old(self).params@,
    {
        let id = variant.id();
        let pos = self.variants.len();
        proof {
            lemma_indexes_push(self.variant_index@, self.spec_variants().map_values(|v: VariantView| v.id.raw), id.raw, pos);
        }
        self.variant_index.insert(id.raw, pos);
        self.variants.push(variant);
        assert(self.spec_variants() =~= old(self).spec_variants().push(variant.view()));
        assert(self.spec_variants().map_values(|v: VariantView| v.id.raw) =~= old(self).spec_variants().map_values(
            |v: VariantView| v.id.raw,
        ).push(id.raw));
    }

    /// The field with the given id, if it has been registered.
    pub fn field(&self, id: FieldId) -> (r: Option<ItemField>)
        requires
            self.wf(),
        ensures
            match r {
                Some(f) => f.spec_id() == id && self.spec_fields().contains(f),
                None => !has_field(self.spec_fields(), id),
            },
    {
        match self.find_field(id) {
            Some(i) => {
                assert(self.spec_fields()[i as int] == self.fields@[i as int]);
                Some(self.fields[i])
            },
            None => None,
        }
    }

    /// The variant with the given id, if it has been registered.
    pub fn variant(&self, id: VariantId) -> (r: Option<&EnumVariant>)
        requires
            self.wf(),
        ensures
            match r {
                Some(v) => v.view().id == id && self.spec_variants().contains(v.view()),
                None => !has_variant(self.spec_variants(), id),
            },
    {
        match self.find_variant(id) {
            Some(i) => {
                assert(self.spec_variants()[i as int] == self.variants@[i as int].view());
                Some(&self.variants[i])
            },
            None => None,
        }
    }

    /// Registers the fields in order, each one that is not there yet, and
    /// returns all of their ids.
    fn to_fields(&mut self, srcs: &Vec<SourceField>) -> (r: Vec<FieldId>)
        requires
            old(self).wf(),
        ensures
            final(self).wf(),
            r@ == field_ids(srcs@),
            final(self).spec_fields() == register_fields(old(self).spec_fields(), srcs@),
            final(self).spec_items() == old(self).spec_items(),
            final(self).spec_bodies() == old(self).spec_bodies(),
            final(self).spec_variants() == old(self).spec_variants(),
            final(self).generics@ == old(self).generics@,
            final(self).params@ == old(self).params@,
    {
        let mut ids: Vec<FieldId> = Vec::new();
        let mut i: usize = 0;
        assert(srcs@.subrange(0, 0) =~= Seq::<SourceField>::empty());
        while i < srcs.len()
            invariant
                0 <= i <= srcs@.len(),
                self.wf(),
                ids@ == field_ids(srcs@.subrange(0, i as int)),
                self.fields@ == register_fields(old(self).fields@, srcs@.subrange(0, i as int)),
                self.items@ == old(self).items@,
                self.bodies@ == old(self).bodies@,
                self.variants@ == old(self).variants@,
                self.generics@ == old(self).generics@,
                self.params@ == old(self).params@,
            decreases srcs@.len() - i,
        {
            let f = srcs[i];
            let id = FieldId { raw: f.handle };
            proof {
                assert(srcs@.subrange(0, i as int + 1).drop_last() =~= srcs@.subrange(0, i as int));
                assert(srcs@.subrange(0, i as int + 1).last() == f);
            }
            if self.find_field(id).is_none() {
                let field = ItemField::new(id, f.name, TyId { raw: f.ty }, SpanId { raw: f.span.handle });
                self.push_field(field);
            }
            ids.push(id);
            i += 1;
            assert(ids@ =~= field_ids(srcs@.subrange(0, i as int)));
        }
        assert(srcs@.subrange(0, i as int) =~= srcs@);
        ids
    }

    /// The fields of a struct or an enum variant, registered in order.
    fn to_adt_kind(&mut self, d: &SourceVariantData) -> (r: AdtKind)
        requires
            old(self).wf(),
        ensures
            final(self).wf(),
            r.spec_shape() == shape_of(*d),
            r.spec_fields() == field_ids(data_fields(*d)),
            final(self).spec_fields() == register_fields(old(self).spec_fields(), data_fields(*d)),
            final(self).spec_items() == old(self).spec_items(),
            final(self).spec_bodies() == old(self).spec_bodies(),
            final(self).spec_variants() == old(self).spec_variants(),
            final(self).generics@ == old(self).generics@,
            final(self).params@ == old(self).params@,
    {
        match d {
            SourceVariantData::Struct(fields) => AdtKind::Field(self.to_fields(fields)),
            SourceVariantData::Tuple(fields) => AdtKind::Tuple(self.to_fields(fields)),
            SourceVariantData::Unit => AdtKind::Unit,
        }
    }

    /// Registers the variants in order, with their fields, each one that is
    /// not there yet, and returns all of their ids.
    fn to_variants(&mut self, srcs: &Vec<SourceVariant>) -> (r: Vec<VariantId>)
        requires
            old(self).wf(),
        ensures
            final(self).wf(),
            r@ == srcs@.map_values(|v: SourceVariant| VariantId { raw: v.handle }),
            final(self).spec_fields() == register_fields(old(self).spec_fields(), variant_fields(srcs@)),
            final(self).spec_variants() == register_variants(old(self).spec_variants(), srcs@),
            final(self).spec_items() == old(self).spec_items(),
            final(self).spec_bodies() == old(self).spec_bodies(),
            final(self).generics@ == old(self).generics@,
            final(self).params@ == old(self).params@,
    {
        let mut ids: Vec<VariantId> = Vec::new();
        let mut i: usize = 0;
        assert(srcs@.subrange(0, 0) =~= Seq::<SourceVariant>::empty());
        while i < srcs.len()
            invariant
                0 <= i <= srcs@.len(),
                self.wf(),
                ids@ == srcs@.subrange(0, i as int).map_values(|v: SourceVariant| VariantId { raw: v.handle }),
                self.spec_fields() == register_fields(
                    old(self).spec_fields(),
                    variant_fields(srcs@.subrange(0, i as int)),
                ),
                self.spec_variants() == register_variants(
                    old(self).spec_variants(),
                    srcs@.subrange(0, i as int),
                ),
                self.items@ == old(self).items@,
                self.bodies@ == old(self).bodies@,
                self.generics@ == old(self).generics@,
                self.params@ == old(self).params@,
            decreases srcs@.len() - i,
        {
            let v = &srcs[i];
            let id = VariantId { raw: v.handle };
            let ghost prefix = srcs@.subrange(0, i as int);
            proof {
                assert(srcs@.subrange(0, i as int + 1).drop_last() =~= prefix);
                assert(srcs@.subrange(0, i as int + 1).last() == *v);
                lemma_register_fields_append(
                    old(self).spec_fields(),
                    variant_fields(prefix),
                    data_fields(v.data),
                );
            }
            let kind = self.to_adt_kind(&v.data);
            if self.find_variant(id).is_none() {
                let ghost before = self.spec_variants();
                let variant = EnumVariant::new(id, v.name, SpanId { raw: v.span.handle }, kind);
                self.push_variant(variant);
            }
            ids.push(id);
            i += 1;
            assert(ids@ =~= srcs@.subrange(0, i as int).map_values(|v: SourceVariant| VariantId { raw: v.handle }));
        }
        assert(srcs@.subrange(0, i as int) =~= srcs@);
        ids
    }

    /// Converts an item of the compiler's tree and returns its id. An item
    /// that was converted before is returned from the cache, unchanged and
    /// without a new allocation; an item that the stable tree leaves out gives
    /// `None`.
    pub fn to_item(&mut self, src: &SourceItem) -> (r: Option<ItemId>)
        requires
            old(self).wf(),
        ensures
            final(self).wf(),
            item_conversion(old(self).spec_items(), *src, final(self).spec_items(), r),
            r matches Some(id) ==> has_item(final(self).spec_items(), id),
            final(self).spec_bodies() == old(self).spec_bodies(),
            final(self).spec_fields() == if converts_new(old(self).spec_items(), *src) {
                register_fields(old(self).spec_fields(), item_fields(*src))
            } else {
                old(self).spec_fields()
            },
            final(self).spec_variants() == if converts_new(old(self).spec_items(), *src) {
                register_variants(old(self).spec_variants(), item_variants(*src))
            } else {
                old(self).spec_variants()
            },
            if converts_new(old(self).spec_items(), *src) {
                &&& final(self).spec_generics() == old(self).spec_generics().insert(
                    src.owner,
                    final(self).spec_generics()[src.owner],
                )
                &&& generics_converted(src.generics, final(self).spec_generics()[src.owner])
            } else {
                final(self).spec_generics() == old(self).spec_generics()
            },
            match (converts_new(old(self).spec_items(), *src), src.kind) {
                (true, SourceItemKind::Fn { params, .. }) => {
                    &&& final(self).spec_params() == old(self).spec_params().insert(
                        src.owner,
                        final(self).spec_params()[src.owner],
                    )
                    &&& final(self).spec_params()[src.owner]@ == params@.map_values(
                        |p: SourceParam| param_of(p),
                    )
                },
                _ => final(self).spec_params() == old(self).spec_params(),
            },
    {
        let id = ItemId { raw: src.owner };
        if let Some(_) = self.find_item(id) {
            return Some(id);
        }
        if is_compiler_generated(src.span) {
            return None;
        }
        let data = CommonItemData::new(id, SpanId { raw: src.span.handle }, src.name, to_visibility(src.vis));
        let item = match &src.kind {
            SourceItemKind::ExternCrate { original_name } => {
                let crate_name = match original_name {
                    Some(n) => *n,
                    None => src.name,
                };
                ItemKind::ExternCrate(ExternCrateItem::new(data, crate_name))
            },
            SourceItemKind::Use { kind } => {
                let kind = match kind {
                    SourceUseKind::Single => UseKind::Single,
                    SourceUseKind::Glob => UseKind::Glob,
                    SourceUseKind::ListStem => {
                        return None;
                    },
                };
                ItemKind::Use(UseItem::new(data, kind))
            },
            SourceItemKind::Static { mutable, body } => {
                let body = match body {
                    Some(b) => Some(BodyId { raw: *b }),
                    None => None,
                };
                ItemKind::Static(StaticItem::new(data, *mutable, body))
            },
            SourceItemKind::TyAlias { bounds, ty } => {
                let ty = match ty {
                    Some(t) => Some(TyId { raw: *t }),
                    None => None,
                };
                ItemKind::TyAlias(TyAliasItem::new(data, to_ty_param_bound(bounds), ty))
            },
            SourceItemKind::Union { fields } => {
                let ids = self.to_fields(fields);
                ItemKind::Union(UnionItem::new(data, ids))
            },
            SourceItemKind::Trait { is_unsafe, bounds, items } => ItemKind::Trait(
                TraitItem::new(data, *is_unsafe, to_ty_param_bound(bounds), item_ids_of(items)),
            ),
            SourceItemKind::Impl { is_unsafe, is_positive, trait_def, self_ty, items } => {
                let trait_id = match trait_def {
                    Some(d) => Some(ItemId { raw: *d }),
                    None => None,
                };
                ItemKind::Impl(
                    ImplItem::new(
                        data,
                        *is_unsafe,
                        *is_positive,
                        trait_id,
                        TyId { raw: *self_ty },
                        item_ids_of(items),
                    ),
                )
            },
            SourceItemKind::ForeignMod { abi, items } => {
                let abi = to_abi(*abi);
                let ids = item_ids_of(items);
                ItemKind::ExternBlock(ExternBlockItem::new(data, abi, ids))
            },
            SourceItemKind::Const { body } => {
                let body = match body {
                    Some(b) => Some(BodyId { raw: *b }),
                    None => None,
                };
                ItemKind::Const(ConstItem::new(data, body))
            },
            SourceItemKind::Fn { sig, params, body } => ItemKind::Fn(to_fn_item(data, sig, *body)),
            SourceItemKind::Mod { items } => {
                let mut ids: Vec<ItemId> = Vec::new();
                let mut i: usize = 0;
                while i < items.len()
                    invariant
                        0 <= i <= items@.len(),
                        ids@.len() == i,
                        forall|j: int| 0 <= j < i ==> #[trigger] ids@[j] == item_id_of(items@[j]),
                    decreases items@.len() - i,
                {
                    ids.push(ItemId { raw: items[i] });
                    i += 1;
                }
                assert(ids@ =~= items@.map_values(|o: u64| item_id_of(o)));
                ItemKind::Mod(ModItem::new(data, ids))
            },
            SourceItemKind::Macro | SourceItemKind::GlobalAsm => {
                return None;
            },
            SourceItemKind::Struct { data: d } => {
                let kind = self.to_adt_kind(d);
                ItemKind::Struct(StructItem::new(data, kind))
            },
            SourceItemKind::Enum { variants } => {
                let ids = self.to_variants(variants);
                ItemKind::Enum(EnumItem::new(data, ids))
            },
            SourceItemKind::Unstable { feature } => ItemKind::Unstable(
                UnstableItem::new(data, *feature),
            ),
        };
        assert(item.spec_id() == id);
        let generics = to_generic_params(&src.generics);
        self.generics.insert(id.raw, generics);
        match &src.kind {
            SourceItemKind::Fn { params, .. } => {
                let converted = to_fn_params(params);
                self.params.insert(id.raw, converted);
            },
            _ => {},
        }
        self.push_item(item);
        proof {
            assert(self.items@.drop_last() =~= old(self).items@);
            assert(self.items@[self.items@.len() - 1] == item);
        }
        Some(id)
    }

    /// Converts the item of the crate `krate` that has the given id: the first
    /// one whose owner gives that id. `None` if there is none, or if the item
    /// has no node.
    pub fn to_item_from_id(&mut self, krate: &Vec<SourceItem>, id: ItemId) -> (r: Option<ItemId>)
        requires
            old(self).wf(),
        ensures
            final(self).wf(),
            match first_with_owner(krate@, id, 0) {
                Some(i) => item_conversion(old(self).spec_items(), krate@[i], final(self).spec_items(), r),
                None => r is None && *final(self) == *old(self),
            },
    {
        let mut i: usize = 0;
        while i < krate.len()
            invariant
                0 <= i <= krate@.len(),
                *self == *old(self),
                self.wf(),
                first_with_owner(krate@, id, 0) == first_with_owner(krate@, id, i as int),
            decreases krate@.len() - i,
        {
            if krate[i].owner == id.raw {
                return self.to_item(&krate[i]);
            }
            i += 1;
        }
        None
    }

    /// Converts the items of the compiler's tree in order and returns the ids
    /// of those that have a node, in order; each conversion is one of
    /// [`SessionContext::to_item`].
    pub fn to_items(&mut self, srcs: &Vec<SourceItem>) -> (r: Vec<ItemId>)
        requires
            old(self).wf(),
        ensures
            final(self).wf(),
            exists|states: Seq<Seq<ItemKind>>, results: Seq<Option<ItemId>>|
                #[trigger] conversion_chain(states, srcs@, results) && states[0] == old(
                    self,
                ).spec_items() && states.last() == final(self).spec_items() && r@ == present_ids(
                    results,
                ),
            final(self).spec_bodies() == old(self).spec_bodies(),
    {
        let mut ids: Vec<ItemId> = Vec::new();
        let ghost mut states: Seq<Seq<ItemKind>> = seq![self.spec_items()];
        let ghost mut results: Seq<Option<ItemId>> = Seq::empty();
        let mut i: usize = 0;
        assert(srcs@.subrange(0, 0) =~= Seq::<SourceItem>::empty());
        while i < srcs.len()
            invariant
                self.wf(),
                0 <= i <= srcs@.len(),
                conversion_chain(states, srcs@.subrange(0, i as int), results),
                states[0] == old(self).spec_items(),
                states.last() == self.spec_items(),
                ids@ == present_ids(results),
                self.spec_bodies() == old(self).spec_bodies(),
            decreases srcs@.len() - i,
        {
            let r = self.to_item(&srcs[i]);
            match r {
                Some(id) => ids.push(id),
                None => {},
            }
            proof {
                let prev_states = states;
                let prev_results = results;
                states = states.push(self.spec_items());
                results = results.push(r);
                assert(results.drop_last() =~= prev_results);
                let next = srcs@.subrange(0, i as int + 1);
                assert forall|j: int| 0 <= j < next.len() implies #[trigger] item_conversion(
                    states[j],
                    next[j],
                    states[j + 1],
                    results[j],
                ) by {
                    if j < i {
                        assert(srcs@.subrange(0, i as int)[j] == next[j]);
                        assert(item_conversion(
                            prev_states[j],
                            srcs@.subrange(0, i as int)[j],
                            prev_states[j + 1],
                            prev_results[j],
                        ));
                    }
                }
            }
            i += 1;
        }
        assert(srcs@.subrange(0, i as int) =~= srcs@);
        ids
    }

    /// Converts an item of a trait or an impl block and returns a reference to
    /// its node. An item that was already converted, on this path or another,
    /// is returned from the cache: the same node, with nothing allocated.
    pub fn to_assoc_item(&mut self, src: &SourceItem) -> (r: Option<AssocItemKind<'_>>)
        requires
            old(self).wf(),
        ensures
            final(self).wf(),
            exists|rid: Option<ItemId>| #[trigger]
                item_conversion(old(self).spec_items(), *src, final(self).spec_items(), rid)
                    && match rid {
                    Some(id) => has_item(final(self).spec_items(), id) && forall|i: int|
                        0 <= i < final(self).spec_items().len() && (#[trigger] final(self).spec_items()[i]).spec_id()
                            == id ==> assoc_of(r, final(self).spec_items()[i]),
                    None => r is None,
                },
            final(self).spec_bodies() == old(self).spec_bodies(),
    {
        let id = self.to_item(src);
        match id {
            Some(id) => {
                match self.find_item(id) {
                    Some(i) => {
                        proof {
                            self.lemma_unique_at(i as int, id);
                        }
                        AssocItemKind::from_item(&self.items[i])
                    },
                    None => None,
                }
            },
            None => None,
        }
    }

    /// Converts an item of an `extern` block whose calling convention is
    /// `abi`, and returns a reference to its node. An item that was already
    /// converted is returned from the cache: the same node, with nothing allocated.
    pub fn to_external_item(&mut self, src: &SourceForeignItem, abi: SourceAbi) -> (r: Option<
        ExternItemKind<'_>,
    >)
        requires
            old(self).wf(),
        ensures
            final(self).wf(),
            foreign_item_conversion(old(self).spec_items(), *src, abi, final(self).spec_items()),
            forall|i: int|
                0 <= i < final(self).spec_items().len() && (#[trigger] final(self).spec_items()[i]).spec_id()
                    == item_id_of(src.owner) ==> extern_of(r, final(self).spec_items()[i]),
            final(self).spec_bodies() == old(self).spec_bodies(),
            final(self).spec_fields() == old(self).spec_fields(),
            final(self).spec_variants() == old(self).spec_variants(),
            final(self).spec_generics() == old(self).spec_generics(),
            match (has_item(old(self).spec_items(), item_id_of(src.owner)), src.kind) {
                (false, SourceForeignItemKind::Fn { params, .. }) => {
                    &&& final(self).spec_params() == old(self).spec_params().insert(
                        src.owner,
                        final(self).spec_params()[src.owner],
                    )
                    &&& final(self).spec_params()[src.owner]@ == params@.map_values(
                        |p: SourceParam| param_of(p),
                    )
                },
                _ => final(self).spec_params() == old(self).spec_params(),
            },
    {
        let id = ItemId { raw: src.owner };
        let index = match self.find_item(id) {
            Some(i) => i,
            None => {
                let data = CommonItemData::new(id, SpanId { raw: src.span.handle }, src.name, to_visibility(src.vis));
                let item = match &src.kind {
                    SourceForeignItemKind::Fn { has_self, params, output } => {
                        let return_ty = match output {
                            Some(t) => Some(TyId { raw: *t }),
                            None => None,
                        };
                        let converted = to_fn_params(params);
                        self.params.insert(id.raw, converted);
                        ItemKind::Fn(
                            FnItem::new(data, false, false, false, true, *has_self, to_abi(abi), return_ty, None),
                        )
                    },
                    SourceForeignItemKind::Static { mutable } => ItemKind::Static(
                        StaticItem::new(data, *mutable, None),
                    ),
                    SourceForeignItemKind::Type => ItemKind::Unstable(UnstableItem::new(data, None)),
                };
                proof {
                    CommonItemData::lemma_spec_new(id, span_id_of(src.span), src.name, visibility_of(src.vis));
                }
                assert(item == foreign_item_of(*src, abi));
                assert(item.spec_id() == id);
                self.push_item(item);
                self.items.len() - 1
            },
        };
        proof {
            self.lemma_unique_at(index as int, id);
        }
        ExternItemKind::from_item(&self.items[index])
    }

    /// In a well-formed session the node at `i` is the only one with its id.
    proof fn lemma_unique_at(&self, i: int, id: ItemId)
        requires
            self.wf(),
            0 <= i < self.items@.len(),
            self.items@[i].spec_id() == id,
        ensures
            forall|j: int|
                0 <= j < self.items@.len() && (#[trigger] self.items@[j]).spec_id() == id ==> j == i,
    {
        assert forall|j: int|
            0 <= j < self.items@.len() && (#[trigger] self.items@[j]).spec_id() == id implies j == i by {
            if j < i {
                assert(self.items@[j].spec_id() != self.items@[i].spec_id());
            } else if i < j {
                assert(self.items@[i].spec_id() != self.items@[j].spec_id());
            }
        }
    }

    /// In a well-formed session no two items, bodies, fields or variants share an id.
    pub proof fn lemma_ids_unique(&self)
        requires
            self.wf(),
        ensures
            item_ids_unique(self.spec_items()),
            body_ids_unique(self.spec_bodies()),
            field_ids_unique(self.spec_fields()),
            variant_ids_unique(self.spec_variants()),
    {
    }

    /// Converts a body of the compiler's tree. A body that was converted before
    /// is returned from the cache, unchanged and without a new allocation.
    pub fn to_body(&mut self, src: &SourceBody) -> (r: Body)
        requires
            old(self).wf(),
        ensures
            final(self).wf(),
            body_conversion(old(self).spec_bodies(), *src, final(self).spec_bodies(), r),
            r.spec_id() == (BodyId { raw: src.handle }),
            final(self).spec_generics() == old(self).spec_generics(),
            final(self).spec_params() == old(self).spec_params(),
            exists|i: int| 0 <= i < final(self).spec_bodies().len() && final(self).spec_bodies()[i] == r,
            final(self).spec_items() == old(self).spec_items(),
            final(self).spec_fields() == old(self).spec_fields(),
            final(self).spec_variants() == old(self).spec_variants(),
    {
        let id = BodyId { raw: src.handle };
        if let Some(i) = self.find_body(id) {
            return self.bodies[i];
        }
        let owner = ItemId { raw: src.owner };
        let value = if src.is_coroutine {
            let data = CommonExprData::new(
                ExprId { raw: src.value.handle },
                SpanId { raw: src.value.span.handle },
            );
            let n = UnstableExpr::new(data, ExprPrecedence::Unstable(0));
            proof {
                n.lemma_narrow_as_expr();
            }
            n.as_expr()
        } else {
            to_expr(&src.value)
        };
        let body = Body::new(id, owner, value);
        self.push_body(body);
        assert(self.spec_bodies()[self.spec_bodies().len() - 1] == body);
        body
    }
}

/// Converting the same item twice in one session gives the same node: the
/// second conversion finds the first one's node in the cache, returns the same
/// id and leaves the arena as it was.
pub proof fn lemma_item_conversion_idempotent(
    s0: Seq<ItemKind>,
    src: SourceItem,
    s1: Seq<ItemKind>,
    r1: Option<ItemId>,
    s2: Seq<ItemKind>,
    r2: Option<ItemId>,
)
    requires
        item_conversion(s0, src, s1, r1),
        item_conversion(s1, src, s2, r2),
    ensures
        s2 == s1,
        r2 == r1,
{
    let id = item_id_of(src.owner);
    if !has_item(s0, id) && !item_dropped(src) {
        lemma_converted_item_id(src, s1.last());
        assert(s1[s1.len() - 1].spec_id() == id);
    }
}

/// Converting the same body twice in one session gives the same node and
/// leaves the arena as the first conversion left it.
pub proof fn lemma_body_conversion_idempotent(
    s0: Seq<Body>,
    src: SourceBody,
    s1: Seq<Body>,
    r1: Body,
    s2: Seq<Body>,
    r2: Body,
)
    requires
        body_ids_unique(s0),
        body_conversion(s0, src, s1, r1),
        body_conversion(s1, src, s2, r2),
    ensures
        s2 == s1,
        r2 == r1,
{
    let id = BodyId { raw: src.handle };
    if has_body(s0, id) {
        let i = choose|i: int| 0 <= i < s0.len() && s0[i] == r1 && r1.spec_id() == id;
        let j = choose|j: int| 0 <= j < s1.len() && s1[j] == r2 && r2.spec_id() == id;
        if i != j {
            if i < j {
                assert(s0[i].spec_id() != s0[j].spec_id());
            } else {
                assert(s0[j].spec_id() != s0[i].spec_id());
            }
        }
    } else {
        assert(s1[s1.len() - 1] == r1);
        assert(has_body(s1, id));
        let j = choose|j: int| 0 <= j < s1.len() && s1[j] == r2 && r2.spec_id() == id;
        if j < s0.len() {
            assert(s1[j] == s0[j]);
            assert(has_body(s0, id));
        }
    }
}

/// The position of the first item at or after `from` whose owner gives `id`.
pub open spec fn first_with_owner(krate: Seq<SourceItem>, id: ItemId, from: int) -> Option<int>
    decreases krate.len() - from,
{
    if from < 0 || from >= krate.len() {
        None
    } else if item_id_of(krate[from].owner) == id {
        Some(from)
    } else {
        first_with_owner(krate, id, from + 1)
    }
}

/// Conversions of the items `srcs`, one after the other: the arena goes
/// through `states`, and the `i`th conversion has the result `results[i]`.
pub open spec fn conversion_chain(
    states: Seq<Seq<ItemKind>>,
    srcs: Seq<SourceItem>,
    results: Seq<Option<ItemId>>,
) -> bool {
    &&& states.len() == srcs.len() + 1
    &&& results.len() == srcs.len()
    &&& forall|i: int|
        0 <= i < srcs.len() ==> #[trigger] item_conversion(states[i], srcs[i], states[i + 1], results[i])
}

/// The ids among the results, in order.
pub open spec fn present_ids(results: Seq<Option<ItemId>>) -> Seq<ItemId>
    decreases results.len(),
{
    if results.len() == 0 {
        Seq::empty()
    } else {
        let init = present_ids(results.drop_last());
        match results.last() {
            Some(id) => init.push(id),
            None => init,
        }
    }
}

/// Whether `index` maps exactly the ids `ids` to their positions.
pub open spec fn indexes(index: Map<u64, usize>, ids: Seq<u64>) -> bool {
    &&& forall|k: u64| #[trigger]
        index.contains_key(k) ==> index[k] < ids.len() && ids[index[k] as int] == k
    &&& forall|i: int| 0 <= i < ids.len() ==> #[trigger] index.contains_key(ids[i])
}

proof fn lemma_indexes_push(index: Map<u64, usize>, ids: Seq<u64>, k: u64, pos: usize)
    requires
        indexes(index, ids),
        pos == ids.len(),
        forall|i: int| 0 <= i < ids.len() ==> ids[i] != k,
    ensures
        indexes(index.insert(k, pos), ids.push(k)),
{
    let ids2 = ids.push(k);
    let index2 = index.insert(k, pos);
    assert forall|i: int| 0 <= i < ids2.len() implies #[trigger] index2.contains_key(ids2[i]) by {
        if i < ids.len() {
            assert(ids2[i] == ids[i]);
            assert(index.contains_key(ids[i]));
        }
    }
    assert forall|j: u64| #[trigger] index2.contains_key(j) implies index2[j] < ids2.len() && ids2[index2[j] as int] == j by {
        if j != k {
            assert(index.contains_key(j));
        }
    }
}

fn lookup(index: &HashMap<u64, usize>, k: u64) -> (r: Option<usize>)
    ensures
        match r {
            Some(i) => index@.contains_key(k) && i == index@[k],
            None => !index@.contains_key(k),
        },
{
    broadcast use vstd::std_specs::hash::group_hash_axioms;
    match index.get(&k) {
        Some(i) => Some(*i),
        None => None,
    }
}

/// In a fresh session, whose arena is empty, converting an item gives its own
/// id (or nothing, for an item the tree leaves out) and one node, whatever
/// earlier sessions converted: ids are not numbered across sessions.
pub proof fn lemma_fresh_session_conversion(src: SourceItem, after: Seq<ItemKind>, r: Option<ItemId>)
    requires
        item_conversion(Seq::<ItemKind>::empty(), src, after, r),
    ensures
        r == if item_dropped(src) {
            None::<ItemId>
        } else {
            Some(item_id_of(src.owner))
        },
        after.len() == if item_dropped(src) {
            0nat
        } else {
            1nat
        },
{
}

} // verus!
