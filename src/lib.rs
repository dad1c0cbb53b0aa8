//! Declarative record transforms: from the shape of a record declaration,
//! decide what a fluent builder and a field-by-field debug printer look like.
//!
//! The library never touches tokens. A front end decodes a declaration into
//! the plain model of [`syntax`], calls [`builder::derive`] or
//! [`debug::compose_debug`], and emits code from the plan that comes back.
//! [`session`] states how the emitted builder behaves once it runs.

pub mod annotation;
pub mod builder;
pub mod classify;
pub mod debug;
pub mod diagnostic;
pub mod session;
pub mod syntax;
