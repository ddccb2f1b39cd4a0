//! Abstract syntax of a small untyped functional language for on-chain
//! programs, with its canonical textual rendering.
//!
//! A [`Program`] wraps a [`Term`] under a version tag. Terms are built from
//! literals ([`Const`]), primitive operations ([`Builtin`]), variables,
//! functions, applications, suspensions and the failing term. Every part
//! has one canonical text ([`Render`]), stated as a sequence of characters
//! and produced exactly by the executable methods.

pub mod builtin;
pub mod constant;
pub mod decimal;
pub mod integer;
pub mod laws;
pub mod name;
pub mod program;
pub mod render;
pub mod term;

pub use builtin::Builtin;
pub use constant::Const;
pub use name::Name;
pub use program::Program;
pub use render::Render;
pub use term::Term;
