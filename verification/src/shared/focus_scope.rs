//! Focus handling.

use vstd::prelude::*;

verus! {

/// Tells a focus scope that it stands inside another one, so that only one
/// of the two moves the focus.
#[derive(Debug, Clone, Copy, PartialEq, Eq, Structural)]
pub struct FocusConflictContext(pub bool);

/// Whether an element takes part in focus handling. None does so far.
pub fn is_fiber_host_component_focusable() -> (focusable: bool)
    ensures
        !focusable,
{
    false
}

} // verus!
