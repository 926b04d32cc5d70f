//! Breadcrumbs.

use vstd::prelude::*;
use crate::classes::prefixed;

verus! {

/// The class of the active item of a breadcrumb.
pub fn get_active_class(active: bool) -> (class: Option<&'static str>)
    ensures
        match class {
            Some(c) => active && c@ == "active"@,
            None => !active,
        },
{
    if active {
        Some("active")
    } else {
        None
    }
}

/// The test id of an item: `testid` and its label.
pub fn get_test_id(label: &str) -> (id: String)
    ensures
        id@ == "testid"@ + label@,
{
    prefixed("testid", label)
}

/// What a breadcrumb item is drawn as.
#[derive(Debug, Clone, Copy, PartialEq, Eq, Structural)]
pub enum ItemKind {
    /// A link to the item's address.
    Link,
    /// A button that calls the item's click handler.
    Button,
    /// The bare label.
    Label,
}

/// An item that is not active is a link where it has an address, else a
/// button where it has a click handler. Every other item is its bare label.
pub fn item_kind(active: bool, has_href: bool, has_on_click: bool) -> (kind: ItemKind)
    ensures
        kind == if !active && has_href {
            ItemKind::Link
        } else if !active && has_on_click {
            ItemKind::Button
        } else {
            ItemKind::Label
        },
{
    if !active && has_href {
        ItemKind::Link
    } else if !active && has_on_click {
        ItemKind::Button
    } else {
        ItemKind::Label
    }
}

} // verus!
