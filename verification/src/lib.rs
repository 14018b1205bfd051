//! The engine behind a `#[derive(Default)]` that honours a `#[default]`
//! marker on one variant of an enum.
//!
//! The engine works on a plain model of a type declaration ([`syntax`]):
//! it picks the shape to construct ([`selector`]), writes the expression
//! that builds it from each field type's own default ([`constructor`]),
//! and decides which generic parameters need a `Default` bound
//! ([`bounds`]). [`engine::derive`] puts these together.

pub mod bounds;
pub mod constructor;
pub mod engine;
pub mod error;
pub mod laws;
pub mod selector;
pub mod syntax;
