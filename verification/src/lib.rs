//! Object runtime of a prototype-based scripting-language engine.
//!
//! Every object value is one uniform record: a kind-specific payload, an
//! immutable binding to the operation table for that kind, an ordered
//! property store, an optional prototype link and an extensibility flag.
//! Records live in an arena owned by a [`context::Context`] and refer to one
//! another through [`value::JsObject`] handles, so cyclic prototype chains
//! and closure captures are representable and a tracing collector can walk
//! them.

pub mod value;
pub mod payload;
pub mod data;
pub mod property;
pub mod object;
pub mod context;
pub mod builder;
