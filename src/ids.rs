//! Opaque handles that address the nodes of one session's stable tree.
//!
//! A handle is a plain integer. Handles are unique within one session and are
//! never valid in another one; nodes refer to each other only through them.
use vstd::prelude::*;

verus! {

/// Identifies an item.
#[derive(Clone, Copy, Debug, PartialEq, Eq, Structural, Hash)]
pub struct ItemId {
    pub raw: u64,
}

/// Identifies an expression.
#[derive(Clone, Copy, Debug, PartialEq, Eq, Structural, Hash)]
pub struct ExprId {
    pub raw: u64,
}

/// Identifies a statement.
#[derive(Clone, Copy, Debug, PartialEq, Eq, Structural, Hash)]
pub struct StmtId {
    pub raw: u64,
}

/// Identifies the body of a function, constant or static.
#[derive(Clone, Copy, Debug, PartialEq, Eq, Structural, Hash)]
pub struct BodyId {
    pub raw: u64,
}

/// Identifies a span; its text and position are looked up in the session.
#[derive(Clone, Copy, Debug, PartialEq, Eq, Structural, Hash)]
pub struct SpanId {
    pub raw: u64,
}

/// Identifies an interned symbol (a name or a literal's text).
#[derive(Clone, Copy, Debug, PartialEq, Eq, Structural, Hash)]
pub struct SymbolId {
    pub raw: u64,
}

/// Identifies a generic parameter.
#[derive(Clone, Copy, Debug, PartialEq, Eq, Structural, Hash)]
pub struct GenericId {
    pub raw: u64,
}

/// Identifies a field of a struct, union or enum variant.
#[derive(Clone, Copy, Debug, PartialEq, Eq, Structural, Hash)]
pub struct FieldId {
    pub raw: u64,
}

/// Identifies an enum variant.
#[derive(Clone, Copy, Debug, PartialEq, Eq, Structural, Hash)]
pub struct VariantId {
    pub raw: u64,
}

/// Identifies a pattern.
#[derive(Clone, Copy, Debug, PartialEq, Eq, Structural, Hash)]
pub struct PatId {
    pub raw: u64,
}

/// Identifies a syntactic type.
#[derive(Clone, Copy, Debug, PartialEq, Eq, Structural, Hash)]
pub struct TyId {
    pub raw: u64,
}

} // verus!
