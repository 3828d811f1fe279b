//! A verified model of a type-state builder generator.
//!
//! Given a declarative description of a record's fields (required or
//! optional, default rules, validators, permitted evaluation modes), the
//! library computes the companion builder's shape: its type-state slots,
//! the initial state, the setter methods with their state transitions, and
//! the construction entry points. A separate component models the
//! construction protocol of the generated builder itself, so that its key
//! guarantees (required-field completeness, order independence, default
//! substitution, validator gating, async resolution order) are proved.

mod refl;

pub mod builder_impl;
pub mod decl;
pub mod demo;
pub mod documents;
pub mod functions;
pub mod generate;
pub mod infer;
pub mod list;
pub mod names;
pub mod order;
pub mod protocol;
pub mod schema;
pub mod setter;
pub mod struct_impl;
pub mod struct_input;
pub mod tokens;
pub mod typestate;

pub use refl::refl;
pub use refl::Id;
