//! Folds inline markup expressions into template-literal expressions.
//!
//! Everything statically knowable of an element tree — tag names, literal
//! attribute values, literal text children, literal properties of inline
//! spread objects — is folded into literal string segments; only genuinely
//! dynamic parts become interpolation slots.  The result is an alternating
//! sequence of segments and slots, one segment longer than the slots, ready
//! to stand as a (possibly tagged) template literal.

pub mod ast;
pub mod classify;
pub mod extract;
pub mod fold;
pub mod size;
pub mod template;
pub mod text;
pub mod views;
