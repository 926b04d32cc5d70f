//! What the components share: alignment settings and focus handling.

pub mod do_align;
pub mod focus_scope;
