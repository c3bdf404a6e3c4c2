//! A stable, version-independent syntax tree for lint plugins, the session
//! that owns it, the conversion into it from the compiler's tree, and the
//! registry that loads lint plugins and hands tree nodes to their passes.
//!
//! - [`ids`], [`expr`], [`stmt`], [`item`], [`generics`], [`attrs`]: the tree.
//!   Nodes refer to each other by id; tagged kinds narrow back to their nodes.
//! - [`source`]: the compiler's tree, as plain values that conversion reads.
//! - [`session`]: the arenas of one session, with their id-keyed caches, and
//!   the conversion of items, bodies and expressions.
//! - [`registry`], [`dispatch`]: loading plugins behind a version check, and
//!   the order and fault isolation of the passes' callbacks.
//! - [`cli`], [`driver`]: the command lines of the front end and the driver.
pub mod attrs;
pub mod cli;
pub mod dispatch;
pub mod driver;
pub mod expr;
pub mod generics;
pub mod ids;
pub mod item;
pub mod registry;
pub mod session;
pub mod source;
pub mod stmt;
