//! The order in which the passes see an item.
//!
//! For each item, the passes receive one callback per attached attribute, then
//! the callback for any item, then the one callback for the item's kind, where
//! there is one.
use vstd::prelude::*;
use crate::item::ItemKind;

verus! {

/// A callback of a lint pass.
#[derive(Clone, Copy, Debug, PartialEq, Eq, Structural)]
pub enum Callback {
    /// The callback for the attribute at this position of the item's attributes.
    Attr(usize),
    /// The callback for any item.
    Item,
    Mod,
    ExternCrate,
    UseDecl,
    Static,
}

/// The callback for the kind of an item, for the kinds that have one.
pub open spec fn spec_kind_callback(item: ItemKind) -> Option<Callback> {
    match item {
        ItemKind::Mod(_) => Some(Callback::Mod),
        ItemKind::ExternCrate(_) => Some(Callback::ExternCrate),
        ItemKind::Use(_) => Some(Callback::UseDecl),
        ItemKind::Static(_) => Some(Callback::Static),
        _ => None,
    }
}

/// The callbacks for an item with `n_attrs` attributes, in order.
pub open spec fn spec_callback_plan(item: ItemKind, n_attrs: nat) -> Seq<Callback> {
    Seq::new(n_attrs, |i: int| Callback::Attr(i as usize)) + seq![Callback::Item] + match spec_kind_callback(item) {
        Some(c) => seq![c],
        None => Seq::empty(),
    }
}

/// The callbacks that every pass receives for an item with `n_attrs`
/// attributes, in the order in which they are made.
pub fn callback_plan(item: &ItemKind, n_attrs: usize) -> (r: Vec<Callback>)
    ensures
        r@ == spec_callback_plan(*item, n_attrs as nat),
{
    let mut plan: Vec<Callback> = Vec::new();
    let mut i: usize = 0;
    while i < n_attrs
        invariant
            0 <= i <= n_attrs,
            plan@ == Seq::new(i as nat, |j: int| Callback::Attr(j as usize)),
        decreases n_attrs - i,
    {
        plan.push(Callback::Attr(i));
        i += 1;
        assert(plan@ =~= Seq::new(i as nat, |j: int| Callback::Attr(j as usize)));
    }
    plan.push(Callback::Item);
    match item {
        ItemKind::Mod(_) => plan.push(Callback::Mod),
        ItemKind::ExternCrate(_) => plan.push(Callback::ExternCrate),
        ItemKind::Use(_) => plan.push(Callback::UseDecl),
        ItemKind::Static(_) => plan.push(Callback::Static),
        _ => {},
    }
    assert(plan@ =~= spec_callback_plan(*item, n_attrs as nat));
    plan
}

} // verus!
