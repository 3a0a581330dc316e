//! Implementation-generation core of a protocol-binding compiler.
//!
//! Given a capability descriptor and a target type name, the library
//! decides which protocol contract the generated type must satisfy and
//! builds the implementation declaration (constants, associated types,
//! methods) that makes it conform. The declaration is a
//! renderer-agnostic tree; a lowering to `syn` items is provided for
//! the downstream pretty-printer.

pub mod decl;
pub mod ident;
pub mod lower;
pub mod rtrait;
pub mod syn_nodes;

pub use rtrait::Trait;
